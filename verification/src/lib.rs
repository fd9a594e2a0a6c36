pub mod data;
pub mod json;
pub mod mapper;
pub mod row;
pub mod sqlizer;
pub mod text;
pub mod types;
pub mod value;

use vstd::prelude::*;

use crate::data::{DataTableView, RawDataModel};
use crate::json::{json_model, spec_json_model, JsonTableView};
use crate::mapper::{map_data_to_inserts, map_insert_to_json, spec_echo, spec_map_to_inserts};
use crate::sqlizer::{
    compose_inserts, spec_compose, spec_statement_res, sqlize_insert, SqlModelView,
    StringifyErrorView, StringifyInsertError,
};

verus! {

/// How the run's outputs are laid out: one combined SQL artifact and one
/// combined echo artifact, or, with `split_data_files`, one SQL artifact
/// and one echo artifact per table under the two directories.
pub struct GenInsertOptions<'a> {
    pub split_data_files: bool,
    pub sql_out_dir_path: &'a str,
    pub sql_out_file_path: &'a str,
    pub json_out_dir_path: &'a str,
    pub json_out_file_path: &'a str,
}

#[verifier::ext_equal]
pub struct GenOptionsView {
    pub split_data_files: bool,
    pub sql_out_dir_path: Seq<char>,
    pub sql_out_file_path: Seq<char>,
    pub json_out_dir_path: Seq<char>,
    pub json_out_file_path: Seq<char>,
}

impl<'a> View for GenInsertOptions<'a> {
    type V = GenOptionsView;

    open spec fn view(&self) -> GenOptionsView {
        GenOptionsView {
            split_data_files: self.split_data_files,
            sql_out_dir_path: self.sql_out_dir_path@,
            sql_out_file_path: self.sql_out_file_path@,
            json_out_dir_path: self.json_out_dir_path@,
            json_out_file_path: self.json_out_file_path@,
        }
    }
}

impl<'a> Default for GenInsertOptions<'a> {
    fn default() -> (r: GenInsertOptions<'a>)
        ensures
            r.split_data_files == false,
            r.sql_out_dir_path@ == "./out"@,
            r.json_out_dir_path@ == "./out/json"@,
            r.sql_out_file_path@ == "./out.sql"@,
            r.json_out_file_path@ == "./out/out.json"@,
    {
        GenInsertOptions {
            split_data_files: false,
            sql_out_dir_path: "./out",
            json_out_dir_path: "./out/json",
            sql_out_file_path: "./out.sql",
            json_out_file_path: "./out/out.json",
        }
    }
}

/// Why the input document could not be parsed by the reading collaborator.
#[derive(Clone, Copy, PartialEq, Eq, Structural, Debug)]
pub enum ParserError {
    OpenFileError,
    ReadFileError,
    ParseJsonError,
}

/// Why the writing collaborator could not persist an artifact.
#[derive(Clone, Copy, PartialEq, Eq, Structural, Debug)]
pub enum ForceWriteAllError {
    InvalidPath,
    WriteError,
    CreateFileError,
    CreateDirectoryError,
}

/// Everything that can end a run early, from the parse over the compose
/// to the writes.
#[derive(Debug)]
pub enum GenInsertsFromFileError<'a> {
    SqlOutFileWriteError(ForceWriteAllError),
    StringifyError(StringifyInsertError),
    ParserError(ParserError),
    OutDirRequired(&'a str),
    JsonOutFileWriteError(ForceWriteAllError),
    JsonSerializeError,
}

#[verifier::ext_equal]
pub enum GenErrorView {
    SqlOutFileWriteError(ForceWriteAllError),
    StringifyError(StringifyErrorView),
    ParserError(ParserError),
    OutDirRequired(Seq<char>),
    JsonOutFileWriteError(ForceWriteAllError),
    JsonSerializeError,
}

impl<'a> View for GenInsertsFromFileError<'a> {
    type V = GenErrorView;

    open spec fn view(&self) -> GenErrorView {
        match self {
            GenInsertsFromFileError::SqlOutFileWriteError(e) => GenErrorView::SqlOutFileWriteError(
                *e,
            ),
            GenInsertsFromFileError::StringifyError(e) => GenErrorView::StringifyError(e@),
            GenInsertsFromFileError::ParserError(e) => GenErrorView::ParserError(*e),
            GenInsertsFromFileError::OutDirRequired(s) => GenErrorView::OutDirRequired(s@),
            GenInsertsFromFileError::JsonOutFileWriteError(e) => GenErrorView::JsonOutFileWriteError(
                *e,
            ),
            GenInsertsFromFileError::JsonSerializeError => GenErrorView::JsonSerializeError,
        }
    }
}

/// One output of a run: the path the writing collaborator should persist
/// it under, and its full text. The whole run is planned before anything
/// is handed out, so a failing table never yields partial artifacts.
pub struct OutArtifact {
    pub path: String,
    pub content: String,
}

#[verifier::ext_equal]
pub struct OutArtifactView {
    pub path: Seq<char>,
    pub content: Seq<char>,
}

impl View for OutArtifact {
    type V = OutArtifactView;

    open spec fn view(&self) -> OutArtifactView {
        OutArtifactView { path: self.path@, content: self.content@ }
    }
}

/// Models of a sequence of artifacts, in order.
pub open spec fn artifacts_view(s: Seq<OutArtifact>) -> Seq<OutArtifactView> {
    Seq::new(s.len(), |i: int| s[i]@)
}

/// The per-table SQL artifacts of split mode for the first `n` tables:
/// each table's statement, and nothing else, under `<dir>/<table>.sql`,
/// in table order.
pub open spec fn spec_split_sql_upto(ms: Seq<SqlModelView>, dir: Seq<char>, n: int) -> Result<
    Seq<OutArtifactView>,
    GenErrorView,
>
    decreases n,
{
    if n <= 0 || n > ms.len() {
        Ok(Seq::empty())
    } else {
        match spec_split_sql_upto(ms, dir, n - 1) {
            Err(e) => Err(e),
            Ok(acc) => match spec_statement_res(ms[n - 1]) {
                Err(e) => Err(GenErrorView::StringifyError(e)),
                Ok(s) => Ok(
                    acc.push(
                        OutArtifactView {
                            path: dir + "/"@ + ms[n - 1].table_name + ".sql"@,
                            content: s,
                        },
                    ),
                ),
            },
        }
    }
}

/// The per-table echo artifacts of split mode for the first `n` tables:
/// each table's own single-entry echo document under `<dir>/<table>.json`,
/// in table order.
pub open spec fn spec_split_json_upto(echo: Seq<JsonTableView>, dir: Seq<char>, n: int) -> Result<
    Seq<OutArtifactView>,
    GenErrorView,
>
    decreases n,
{
    if n <= 0 || n > echo.len() {
        Ok(Seq::empty())
    } else {
        match spec_split_json_upto(echo, dir, n - 1) {
            Err(e) => Err(e),
            Ok(acc) => match spec_json_model(seq![echo[n - 1]]) {
                None => Err(GenErrorView::JsonSerializeError),
                Some(js) => Ok(
                    acc.push(
                        OutArtifactView {
                            path: dir + "/"@ + echo[n - 1].name + ".json"@,
                            content: js,
                        },
                    ),
                ),
            },
        }
    }
}

/// Every artifact one run of the pipeline produces, in the order it is
/// handed to the writing collaborator. Combined mode yields the one SQL
/// text and the one echo document; split mode yields every table's SQL
/// artifact, then every table's echo artifact. The first failure, in that
/// same order, decides the error.
pub open spec fn spec_artifacts(d: Seq<DataTableView>, opts: GenOptionsView) -> Result<
    Seq<OutArtifactView>,
    GenErrorView,
> {
    let ms = spec_map_to_inserts(d);
    let echo = spec_echo(d);
    if !opts.split_data_files {
        match spec_compose(ms) {
            Err(e) => Err(GenErrorView::StringifyError(e)),
            Ok(sql) => match spec_json_model(echo) {
                None => Err(GenErrorView::JsonSerializeError),
                Some(js) => Ok(
                    seq![
                        OutArtifactView { path: opts.sql_out_file_path, content: sql },
                        OutArtifactView { path: opts.json_out_file_path, content: js },
                    ],
                ),
            },
        }
    } else {
        match spec_split_sql_upto(ms, opts.sql_out_dir_path, ms.len() as int) {
            Err(e) => Err(e),
            Ok(sqls) => match spec_split_json_upto(
                echo,
                opts.json_out_dir_path,
                echo.len() as int,
            ) {
                Err(e) => Err(e),
                Ok(jsons) => Ok(sqls + jsons),
            },
        }
    }
}

/// A failing table fails every longer SQL artifact prefix with the same
/// error.
proof fn lemma_split_sql_upto_err(ms: Seq<SqlModelView>, dir: Seq<char>, k: int, n: int)
    requires
        0 <= k < n <= ms.len(),
        spec_split_sql_upto(ms, dir, k) is Ok,
        spec_statement_res(ms[k]) is Err,
    ensures
        spec_split_sql_upto(ms, dir, n) is Err,
        spec_split_sql_upto(ms, dir, n)->Err_0 == GenErrorView::StringifyError(
            spec_statement_res(ms[k])->Err_0,
        ),
    decreases n,
{
    if n - 1 > k {
        lemma_split_sql_upto_err(ms, dir, k, n - 1);
    }
}

/// A table without echo text fails every longer echo artifact prefix.
proof fn lemma_split_json_upto_err(echo: Seq<JsonTableView>, dir: Seq<char>, k: int, n: int)
    requires
        0 <= k < n <= echo.len(),
        spec_split_json_upto(echo, dir, k) is Ok,
        spec_json_model(seq![echo[k]]) is None,
    ensures
        spec_split_json_upto(echo, dir, n) is Err,
        spec_split_json_upto(echo, dir, n)->Err_0 == GenErrorView::JsonSerializeError,
    decreases n,
{
    if n - 1 > k {
        lemma_split_json_upto_err(echo, dir, k, n - 1);
    }
}

/// A composed SQL artifact prefix holds one artifact per table, in table
/// order, each named for its table and holding that table's statement.
proof fn lemma_split_sql_upto_ok(ms: Seq<SqlModelView>, dir: Seq<char>, n: int)
    requires
        0 <= n <= ms.len(),
        spec_split_sql_upto(ms, dir, n) is Ok,
    ensures
        spec_split_sql_upto(ms, dir, n)->Ok_0.len() == n,
        forall|i: int|
            0 <= i < n ==> (#[trigger] spec_split_sql_upto(ms, dir, n)->Ok_0[i]).path == dir + "/"@
                + ms[i].table_name + ".sql"@ && spec_split_sql_upto(ms, dir, n)->Ok_0[i].content
                == spec_statement_res(ms[i])->Ok_0,
    decreases n,
{
    if n > 0 {
        lemma_split_sql_upto_ok(ms, dir, n - 1);
    }
}

/// A composed echo artifact prefix holds one artifact per table, in table
/// order, each named for its table and holding that table's own echo.
proof fn lemma_split_json_upto_ok(echo: Seq<JsonTableView>, dir: Seq<char>, n: int)
    requires
        0 <= n <= echo.len(),
        spec_split_json_upto(echo, dir, n) is Ok,
    ensures
        spec_split_json_upto(echo, dir, n)->Ok_0.len() == n,
        forall|i: int|
            0 <= i < n ==> (#[trigger] spec_split_json_upto(echo, dir, n)->Ok_0[i]).path == dir
                + "/"@ + echo[i].name + ".json"@ && spec_split_json_upto(echo, dir, n)->Ok_0[i].content
                == spec_json_model(seq![echo[i]]).unwrap(),
    decreases n,
{
    if n > 0 {
        lemma_split_json_upto_ok(echo, dir, n - 1);
    }
}

/// Every output preserves the input document's table order and each
/// table's row order: the i-th insert set is named for the i-th table and
/// carries its rows unchanged; so does the i-th echo entry; and in split
/// mode the i-th SQL artifact and the i-th echo artifact are both named
/// for the i-th table and hold only that table's text.
pub proof fn lemma_order_preservation(d: Seq<DataTableView>, opts: GenOptionsView)
    ensures
        spec_map_to_inserts(d).len() == d.len(),
        forall|i: int|
            0 <= i < d.len() ==> (#[trigger] spec_map_to_inserts(d)[i]).table_name == d[i].name
                && spec_map_to_inserts(d)[i].inserts == d[i].model.inserts,
        spec_echo(d).len() == d.len(),
        forall|i: int|
            0 <= i < d.len() ==> (#[trigger] spec_echo(d)[i]).name == d[i].name && spec_echo(
                d,
            )[i].rows == d[i].model.inserts,
        spec_split_sql_upto(spec_map_to_inserts(d), opts.sql_out_dir_path, d.len() as int) is Ok
            ==> {
            let sqls = spec_split_sql_upto(
                spec_map_to_inserts(d),
                opts.sql_out_dir_path,
                d.len() as int,
            )->Ok_0;
            &&& sqls.len() == d.len()
            &&& forall|i: int|
                0 <= i < d.len() ==> (#[trigger] sqls[i]).path == opts.sql_out_dir_path + "/"@
                    + d[i].name + ".sql"@
        },
        spec_split_json_upto(spec_echo(d), opts.json_out_dir_path, d.len() as int) is Ok ==> {
            let echoes = spec_split_json_upto(
                spec_echo(d),
                opts.json_out_dir_path,
                d.len() as int,
            )->Ok_0;
            &&& echoes.len() == d.len()
            &&& forall|i: int|
                0 <= i < d.len() ==> (#[trigger] echoes[i]).path == opts.json_out_dir_path + "/"@
                    + d[i].name + ".json"@ && echoes[i].content == spec_json_model(
                    seq![spec_echo(d)[i]],
                ).unwrap()
        },
{
    if spec_split_sql_upto(spec_map_to_inserts(d), opts.sql_out_dir_path, d.len() as int) is Ok {
        lemma_split_sql_upto_ok(spec_map_to_inserts(d), opts.sql_out_dir_path, d.len() as int);
    }
    if spec_split_json_upto(spec_echo(d), opts.json_out_dir_path, d.len() as int) is Ok {
        lemma_split_json_upto_ok(spec_echo(d), opts.json_out_dir_path, d.len() as int);
    }
}

/// Builds `<dir>/<name><suffix>`.
fn artifact_path(dir: &str, name: &str, suffix: &str) -> (r: String)
    ensures
        r@ == dir@ + "/"@ + name@ + suffix@,
{
    let mut p = String::from_str(dir);
    p.append("/");
    p.append(name);
    p.append(suffix);
    p
}

/// Plans every output of one run over the parsed dataset: the typed
/// insert sets drive the statement composer, the untransformed rows drive
/// the echo serializer, and the chosen mode decides whether everything is
/// combined into two artifacts or split per table. Nothing is written
/// here; the returned artifacts go to the writing collaborator, and on an
/// error no artifact is handed out at all.
pub fn gen_insert_artifacts<'a>(model: &RawDataModel, opts: &GenInsertOptions<'a>) -> (r: Result<
    Vec<OutArtifact>,
    GenInsertsFromFileError<'a>,
>)
    ensures
        match r {
            Ok(arts) => spec_artifacts(model@, opts@) == Ok::<Seq<OutArtifactView>, GenErrorView>(
                artifacts_view(arts@),
            ),
            Err(e) => spec_artifacts(model@, opts@) == Err::<Seq<OutArtifactView>, GenErrorView>(
                e@,
            ),
        },
{
    let ghost d = model@;
    let ghost ms = spec_map_to_inserts(d);
    let ghost echo = spec_echo(d);
    let sql_models = map_data_to_inserts(model);
    if !opts.split_data_files {
        let sql = match compose_inserts(sql_models) {
            Ok(s) => s,
            Err(e) => {
                return Err(GenInsertsFromFileError::StringifyError(e));
            },
        };
        let json_models = crate::mapper::map_data_to_json(model);
        let js = match json_model(&json_models) {
            Some(j) => j,
            None => {
                return Err(GenInsertsFromFileError::JsonSerializeError);
            },
        };
        let mut arts: Vec<OutArtifact> = Vec::new();
        arts.push(OutArtifact { path: opts.sql_out_file_path.to_owned(), content: sql });
        arts.push(OutArtifact { path: opts.json_out_file_path.to_owned(), content: js });
        proof {
            assert(artifacts_view(arts@) =~= spec_artifacts(d, opts@)->Ok_0);
        }
        Ok(arts)
    } else {
        let mut arts: Vec<OutArtifact> = Vec::new();
        let n = sql_models.len();
        let mut i: usize = 0;
        while i < n
            invariant
                opts.split_data_files,
                d == model@,
                ms == spec_map_to_inserts(d),
                echo == spec_echo(d),
                crate::sqlizer::models_view(sql_models@) == ms,
                n == sql_models@.len(),
                ms.len() == n,
                i <= n,
                spec_split_sql_upto(ms, opts.sql_out_dir_path@, i as int) is Ok,
                artifacts_view(arts@) == spec_split_sql_upto(
                    ms,
                    opts.sql_out_dir_path@,
                    i as int,
                )->Ok_0,
            decreases n - i,
        {
            proof {
                assert(ms[i as int] == sql_models@[i as int]@);
            }
            match sqlize_insert(&sql_models[i]) {
                Err(e) => {
                    proof {
                        lemma_split_sql_upto_err(ms, opts.sql_out_dir_path@, i as int, n as int);
                    }
                    return Err(GenInsertsFromFileError::StringifyError(e));
                },
                Ok(s) => {
                    let path = artifact_path(
                        opts.sql_out_dir_path,
                        sql_models[i].table_name.as_str(),
                        ".sql",
                    );
                    let ghost av = OutArtifactView { path: path@, content: s@ };
                    arts.push(OutArtifact { path, content: s });
                    proof {
                        assert(spec_split_sql_upto(ms, opts.sql_out_dir_path@, i as int + 1)->Ok_0
                            == spec_split_sql_upto(ms, opts.sql_out_dir_path@, i as int)->Ok_0.push(
                            av,
                        ));
                        assert(artifacts_view(arts@) =~= spec_split_sql_upto(
                            ms,
                            opts.sql_out_dir_path@,
                            i as int + 1,
                        )->Ok_0);
                    }
                },
            }
            i = i + 1;
        }
        let ghost sqls = spec_split_sql_upto(ms, opts.sql_out_dir_path@, n as int)->Ok_0;
        let nd = model.data.len();
        let mut k: usize = 0;
        proof {
            assert(artifacts_view(arts@) =~= sqls + spec_split_json_upto(
                echo,
                opts.json_out_dir_path@,
                0,
            )->Ok_0);
        }
        while k < nd
            invariant
                opts.split_data_files,
                d == model@,
                ms == spec_map_to_inserts(d),
                echo == spec_echo(d),
                nd == model.data@.len(),
                echo.len() == nd,
                ms.len() == nd,
                k <= nd,
                spec_split_sql_upto(ms, opts.sql_out_dir_path@, ms.len() as int) is Ok,
                sqls == spec_split_sql_upto(ms, opts.sql_out_dir_path@, ms.len() as int)->Ok_0,
                spec_split_json_upto(echo, opts.json_out_dir_path@, k as int) is Ok,
                artifacts_view(arts@) == sqls + spec_split_json_upto(
                    echo,
                    opts.json_out_dir_path@,
                    k as int,
                )->Ok_0,
            decreases nd - k,
        {
            let entry = &model.data[k];
            let single = map_insert_to_json(&entry.name, &entry.model);
            proof {
                assert(single@ =~= seq![echo[k as int]]);
            }
            match json_model(&single) {
                None => {
                    proof {
                        lemma_split_json_upto_err(
                            echo,
                            opts.json_out_dir_path@,
                            k as int,
                            nd as int,
                        );
                    }
                    return Err(GenInsertsFromFileError::JsonSerializeError);
                },
                Some(js) => {
                    let path = artifact_path(opts.json_out_dir_path, entry.name.as_str(), ".json");
                    let ghost av = OutArtifactView { path: path@, content: js@ };
                    let ghost before = artifacts_view(arts@);
                    let ghost prev = spec_split_json_upto(
                        echo,
                        opts.json_out_dir_path@,
                        k as int,
                    )->Ok_0;
                    arts.push(OutArtifact { path, content: js });
                    proof {
                        assert(echo[k as int].name == entry.name@);
                        assert(spec_split_json_upto(echo, opts.json_out_dir_path@, k as int + 1)->Ok_0
                            == prev.push(av));
                        assert(artifacts_view(arts@) =~= before.push(av));
                        assert(before.push(av) =~= sqls + prev.push(av));
                        assert(artifacts_view(arts@) =~= sqls + spec_split_json_upto(
                            echo,
                            opts.json_out_dir_path@,
                            k as int + 1,
                        )->Ok_0);
                    }
                },
            }
            k = k + 1;
        }
        proof {
            assert(spec_artifacts(d, opts@) == Ok::<Seq<OutArtifactView>, GenErrorView>(
                artifacts_view(arts@),
            ));
        }
        Ok(arts)
    }
}

} // verus!
