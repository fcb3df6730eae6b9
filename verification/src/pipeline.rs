//! The boilerplate mutation pipeline: the fixed, ordered list of eight file
//! operations that turns a freshly generated Vite + React + TypeScript tree
//! into the minimal Tailwind starting point, together with its exact success,
//! failure and partial-mutation semantics.

use vstd::prelude::*;
use vstd::string::StringSliceAdditionalSpecFns;
use vstd::string::StrSliceExecFns;

use crate::bytes::{append_bytes, occurs_in, replace_bytes};
use crate::bytes::lemma_replace_absent;
use crate::name::ProjectName;
use crate::steps::{
    step_path, step_views, spec_apply_step, spec_run_steps, MutationStep, PipelineError,
    RunOutcome, StepView, shift_outcome,
};
use crate::steps::run_steps;
use crate::tree::WorkingTree;

verus! {

/// Target of step 1: the readme that is reduced to a single heading.
pub open spec fn readme_path() -> Seq<char> {
    "README.md"@
}

/// Target of step 2: the HTML entry file whose title is substituted.
pub open spec fn index_html_path() -> Seq<char> {
    "index.html"@
}

/// Target of step 3: the application entry component.
pub open spec fn app_component_path() -> Seq<char> {
    "src/App.tsx"@
}

/// Target of step 4: the entry component's default stylesheet.
pub open spec fn app_styles_path() -> Seq<char> {
    "src/App.css"@
}

/// Target of step 5: the default vector asset.
pub open spec fn logo_asset_path() -> Seq<char> {
    "src/assets/react.svg"@
}

/// Target of step 6: the styling-framework configuration file.
pub open spec fn tailwind_config_path() -> Seq<char> {
    "tailwind.config.js"@
}

/// Target of step 7: the post-processing configuration file.
pub open spec fn postcss_config_path() -> Seq<char> {
    "postcss.config.js"@
}

/// Target of step 8: the global stylesheet entry point.
pub open spec fn global_styles_path() -> Seq<char> {
    "src/index.css"@
}

/// The template title that step 2 replaces with the project name.
pub open spec fn title_pattern() -> Seq<u8> {
    "Vite + React + TS".spec_bytes()
}

/// Step 1 content: a heading token followed by the project name.
pub open spec fn readme_bytes(name: Seq<u8>) -> Seq<u8> {
    "# ".spec_bytes() + name
}

/// Step 3 content: the fixed minimal replacement component.
pub open spec fn app_component_bytes() -> Seq<u8> {
    "export default function App() {
return (
    <h1 className=\"text-3xl p-2 font-bold underline\">
        Everything works!
    </h1>
    )
}".spec_bytes()
}

/// Step 6 content: the styling-framework configuration.
pub open spec fn tailwind_config_bytes() -> Seq<u8> {
    "/** @type {import('tailwindcss').Config} */
export default {
    content: [
        \"./index.html\",
        \"./src/**/*.{js,ts,jsx,tsx}\",
      ],
    theme: {
        extend: {},
    },
    plugins: [],
}".spec_bytes()
}

/// Step 7 content: the post-processing configuration, with its two plugins
/// in a fixed order.
pub open spec fn postcss_config_bytes() -> Seq<u8> {
    "export default {
    plugins: {
    tailwindcss: {},
    autoprefixer: {},
    },
}".spec_bytes()
}

/// Step 8 content: the three layer directives, in a fixed order.
pub open spec fn global_styles_bytes() -> Seq<u8> {
    "@tailwind base;
@tailwind components;
@tailwind utilities;".spec_bytes()
}

/// The eight ordered steps of the pipeline, for a given project name.
pub open spec fn pipeline_step_views(name: Seq<u8>) -> Seq<StepView> {
    seq![
        StepView::Overwrite { path: readme_path(), content: readme_bytes(name) },
        StepView::ReplaceWithin {
            path: index_html_path(),
            pattern: title_pattern(),
            replacement: name,
        },
        StepView::Overwrite { path: app_component_path(), content: app_component_bytes() },
        StepView::DeleteFile { path: app_styles_path() },
        StepView::DeleteFile { path: logo_asset_path() },
        StepView::CreateFile { path: tailwind_config_path(), content: tailwind_config_bytes() },
        StepView::CreateFile { path: postcss_config_path(), content: postcss_config_bytes() },
        StepView::Overwrite { path: global_styles_path(), content: global_styles_bytes() },
    ]
}

/// The shape the external generator owes the pipeline: every file that an
/// overwrite, read-modify-write or delete step targets is present.
pub open spec fn has_generator_shape(t: Map<Seq<char>, Seq<u8>>) -> bool {
    &&& t.contains_key(readme_path())
    &&& t.contains_key(index_html_path())
    &&& t.contains_key(app_component_path())
    &&& t.contains_key(app_styles_path())
    &&& t.contains_key(logo_asset_path())
    &&& t.contains_key(global_styles_path())
}

/// Whether `p` is one of the eight paths the pipeline targets.
pub open spec fn is_pipeline_target(p: Seq<char>) -> bool {
    ||| p == readme_path()
    ||| p == index_html_path()
    ||| p == app_component_path()
    ||| p == app_styles_path()
    ||| p == logo_asset_path()
    ||| p == tailwind_config_path()
    ||| p == postcss_config_path()
    ||| p == global_styles_path()
}

/// The tree a complete run leaves behind: exactly the eight targets changed,
/// in step order, and every other file untouched.
pub open spec fn pipeline_tree_result(t: Map<Seq<char>, Seq<u8>>, name: Seq<u8>) -> Map<
    Seq<char>,
    Seq<u8>,
> {
    t.insert(readme_path(), readme_bytes(name)).insert(
        index_html_path(),
        replace_bytes(t[index_html_path()], title_pattern(), name),
    ).insert(app_component_path(), app_component_bytes()).remove(app_styles_path()).remove(
        logo_asset_path(),
    ).insert(tailwind_config_path(), tailwind_config_bytes()).insert(
        postcss_config_path(),
        postcss_config_bytes(),
    ).insert(global_styles_path(), global_styles_bytes())
}

/// The exact outcome of running the pipeline against any tree: which step
/// fails first, if any, and the partially mutated tree that is left behind.
pub open spec fn pipeline_outcome(t: Map<Seq<char>, Seq<u8>>, name: Seq<u8>) -> RunOutcome {
    let t1 = t.insert(readme_path(), readme_bytes(name));
    let t2 = t1.insert(index_html_path(), replace_bytes(t[index_html_path()], title_pattern(), name));
    let t3 = t2.insert(app_component_path(), app_component_bytes());
    let t4 = t3.remove(app_styles_path());
    let t5 = t4.remove(logo_asset_path());
    let t6 = t5.insert(tailwind_config_path(), tailwind_config_bytes());
    let t7 = t6.insert(postcss_config_path(), postcss_config_bytes());
    if !t.contains_key(readme_path()) {
        RunOutcome { tree: t, failed_step: Some(0int) }
    } else if !t.contains_key(index_html_path()) {
        RunOutcome { tree: t1, failed_step: Some(1int) }
    } else if !t.contains_key(app_component_path()) {
        RunOutcome { tree: t2, failed_step: Some(2int) }
    } else if !t.contains_key(app_styles_path()) {
        RunOutcome { tree: t3, failed_step: Some(3int) }
    } else if !t.contains_key(logo_asset_path()) {
        RunOutcome { tree: t4, failed_step: Some(4int) }
    } else if !t.contains_key(global_styles_path()) {
        RunOutcome { tree: t7, failed_step: Some(7int) }
    } else {
        RunOutcome { tree: pipeline_tree_result(t, name), failed_step: None }
    }
}

/// No two of the eight pipeline paths are the same.
pub proof fn lemma_paths_distinct()
    ensures
        readme_path() != index_html_path(),
        readme_path() != app_component_path(),
        readme_path() != app_styles_path(),
        readme_path() != logo_asset_path(),
        readme_path() != tailwind_config_path(),
        readme_path() != postcss_config_path(),
        readme_path() != global_styles_path(),
        index_html_path() != app_component_path(),
        index_html_path() != app_styles_path(),
        index_html_path() != logo_asset_path(),
        index_html_path() != tailwind_config_path(),
        index_html_path() != postcss_config_path(),
        index_html_path() != global_styles_path(),
        app_component_path() != app_styles_path(),
        app_component_path() != logo_asset_path(),
        app_component_path() != tailwind_config_path(),
        app_component_path() != postcss_config_path(),
        app_component_path() != global_styles_path(),
        app_styles_path() != logo_asset_path(),
        app_styles_path() != tailwind_config_path(),
        app_styles_path() != postcss_config_path(),
        app_styles_path() != global_styles_path(),
        logo_asset_path() != tailwind_config_path(),
        logo_asset_path() != postcss_config_path(),
        logo_asset_path() != global_styles_path(),
        tailwind_config_path() != postcss_config_path(),
        tailwind_config_path() != global_styles_path(),
        postcss_config_path() != global_styles_path(),
{
    reveal_strlit("README.md");
    reveal_strlit("index.html");
    reveal_strlit("src/App.tsx");
    reveal_strlit("src/App.css");
    reveal_strlit("src/assets/react.svg");
    reveal_strlit("tailwind.config.js");
    reveal_strlit("postcss.config.js");
    reveal_strlit("src/index.css");
    assert(readme_path().len() == 9);
    assert(index_html_path().len() == 10);
    assert(app_component_path().len() == 11);
    assert(app_styles_path().len() == 11);
    assert(logo_asset_path().len() == 20);
    assert(tailwind_config_path().len() == 18);
    assert(postcss_config_path().len() == 17);
    assert(global_styles_path().len() == 13);
    assert(app_component_path()[8] != app_styles_path()[8]);
}

/// Running the eight pipeline steps in order has exactly the outcome that
/// [`pipeline_outcome`] states: it succeeds precisely on a tree of the
/// generator's shape, fails first at the earliest step whose target is
/// missing, and leaves behind the mutations of the steps before that one.
pub proof fn lemma_pipeline_outcome(t: Map<Seq<char>, Seq<u8>>, name: Seq<u8>)
    ensures
        spec_run_steps(t, pipeline_step_views(name)) == pipeline_outcome(t, name),
{
    lemma_paths_distinct();
    let s = pipeline_step_views(name);
    let st0 = StepView::Overwrite { path: readme_path(), content: readme_bytes(name) };
    let st1 = StepView::ReplaceWithin {
        path: index_html_path(),
        pattern: title_pattern(),
        replacement: name,
    };
    let st2 = StepView::Overwrite { path: app_component_path(), content: app_component_bytes() };
    let st3 = StepView::DeleteFile { path: app_styles_path() };
    let st4 = StepView::DeleteFile { path: logo_asset_path() };
    let st5 = StepView::CreateFile { path: tailwind_config_path(), content: tailwind_config_bytes() };
    let st6 = StepView::CreateFile { path: postcss_config_path(), content: postcss_config_bytes() };
    let st7 = StepView::Overwrite { path: global_styles_path(), content: global_styles_bytes() };
    let tail1 = seq![st1, st2, st3, st4, st5, st6, st7];
    let tail2 = seq![st2, st3, st4, st5, st6, st7];
    let tail3 = seq![st3, st4, st5, st6, st7];
    let tail4 = seq![st4, st5, st6, st7];
    let tail5 = seq![st5, st6, st7];
    let tail6 = seq![st6, st7];
    let tail7 = seq![st7];
    assert(s.drop_first() =~= tail1);
    assert(tail1.drop_first() =~= tail2);
    assert(tail2.drop_first() =~= tail3);
    assert(tail3.drop_first() =~= tail4);
    assert(tail4.drop_first() =~= tail5);
    assert(tail5.drop_first() =~= tail6);
    assert(tail6.drop_first() =~= tail7);
    assert(tail7.drop_first() =~= Seq::<StepView>::empty());
    if !t.contains_key(readme_path()) {
        assert(spec_run_steps(t, s) == RunOutcome { tree: t, failed_step: Some(0int) });
    } else {
        let t1 = t.insert(readme_path(), readme_bytes(name));
        assert(spec_apply_step(t, st0) == Some(t1));
        assert(spec_run_steps(t, s) == shift_outcome(spec_run_steps(t1, tail1), 1));
        if !t.contains_key(index_html_path()) {
            assert(spec_run_steps(t1, tail1) == RunOutcome { tree: t1, failed_step: Some(0int) });
        } else {
            assert(t1[index_html_path()] == t[index_html_path()]);
            let t2 = t1.insert(
                index_html_path(),
                replace_bytes(t[index_html_path()], title_pattern(), name),
            );
            assert(spec_apply_step(t1, st1) == Some(t2));
            assert(spec_run_steps(t1, tail1) == shift_outcome(spec_run_steps(t2, tail2), 1));
            if !t.contains_key(app_component_path()) {
                assert(spec_run_steps(t2, tail2) == RunOutcome {
                    tree: t2,
                    failed_step: Some(0int),
                });
            } else {
                let t3 = t2.insert(app_component_path(), app_component_bytes());
                assert(spec_apply_step(t2, st2) == Some(t3));
                assert(spec_run_steps(t2, tail2) == shift_outcome(spec_run_steps(t3, tail3), 1));
                if !t.contains_key(app_styles_path()) {
                    assert(spec_run_steps(t3, tail3) == RunOutcome {
                        tree: t3,
                        failed_step: Some(0int),
                    });
                } else {
                    let t4 = t3.remove(app_styles_path());
                    assert(spec_apply_step(t3, st3) == Some(t4));
                    assert(spec_run_steps(t3, tail3) == shift_outcome(
                        spec_run_steps(t4, tail4),
                        1,
                    ));
                    if !t.contains_key(logo_asset_path()) {
                        assert(spec_run_steps(t4, tail4) == RunOutcome {
                            tree: t4,
                            failed_step: Some(0int),
                        });
                    } else {
                        let t5 = t4.remove(logo_asset_path());
                        assert(spec_apply_step(t4, st4) == Some(t5));
                        assert(spec_run_steps(t4, tail4) == shift_outcome(
                            spec_run_steps(t5, tail5),
                            1,
                        ));
                        let t6 = t5.insert(tailwind_config_path(), tailwind_config_bytes());
                        assert(spec_apply_step(t5, st5) == Some(t6));
                        assert(spec_run_steps(t5, tail5) == shift_outcome(
                            spec_run_steps(t6, tail6),
                            1,
                        ));
                        let t7 = t6.insert(postcss_config_path(), postcss_config_bytes());
                        assert(spec_apply_step(t6, st6) == Some(t7));
                        assert(spec_run_steps(t6, tail6) == shift_outcome(
                            spec_run_steps(t7, tail7),
                            1,
                        ));
                        if !t.contains_key(global_styles_path()) {
                            assert(spec_run_steps(t7, tail7) == RunOutcome {
                                tree: t7,
                                failed_step: Some(0int),
                            });
                        } else {
                            let t8 = t7.insert(global_styles_path(), global_styles_bytes());
                            assert(spec_apply_step(t7, st7) == Some(t8));
                            assert(spec_run_steps(t7, tail7) == shift_outcome(
                                spec_run_steps(t8, Seq::<StepView>::empty()),
                                1,
                            ));
                            assert(t8 == pipeline_tree_result(t, name));
                        }
                    }
                }
            }
        }
    }
}

/// Step 1 content for a concrete name: `# ` followed by the name.
pub fn readme_content(name: &ProjectName) -> (r: Vec<u8>)
    ensures
        r@ == readme_bytes(name@),
{
    let mut out = "# ".as_bytes_vec();
    append_bytes(&mut out, name.as_bytes());
    out
}

/// The template title as bytes, for step 2's substitution.
pub fn title_pattern_bytes() -> (r: Vec<u8>)
    ensures
        r@ == title_pattern(),
{
    "Vite + React + TS".as_bytes_vec()
}

/// Step 3 content as bytes.
pub fn app_component_content() -> (r: Vec<u8>)
    ensures
        r@ == app_component_bytes(),
{
    "export default function App() {
return (
    <h1 className=\"text-3xl p-2 font-bold underline\">
        Everything works!
    </h1>
    )
}".as_bytes_vec()
}

/// Step 6 content as bytes.
pub fn tailwind_config_content() -> (r: Vec<u8>)
    ensures
        r@ == tailwind_config_bytes(),
{
    "/** @type {import('tailwindcss').Config} */
export default {
    content: [
        \"./index.html\",
        \"./src/**/*.{js,ts,jsx,tsx}\",
      ],
    theme: {
        extend: {},
    },
    plugins: [],
}".as_bytes_vec()
}

/// Step 7 content as bytes.
pub fn postcss_config_content() -> (r: Vec<u8>)
    ensures
        r@ == postcss_config_bytes(),
{
    "export default {
    plugins: {
    tailwindcss: {},
    autoprefixer: {},
    },
}".as_bytes_vec()
}

/// Step 8 content as bytes.
pub fn global_styles_content() -> (r: Vec<u8>)
    ensures
        r@ == global_styles_bytes(),
{
    "@tailwind base;
@tailwind components;
@tailwind utilities;".as_bytes_vec()
}

/// The ordered list of the eight mutation steps for `name`, ready to be run
/// against the model tree or interpreted against a real directory.
pub fn pipeline_steps(name: &ProjectName) -> (r: Vec<MutationStep>)
    ensures
        step_views(r@) == pipeline_step_views(name@),
{
    let mut v: Vec<MutationStep> = Vec::new();
    v.push(MutationStep::Overwrite {
        path: "README.md".to_owned(),
        content: readme_content(name),
    });
    v.push(MutationStep::ReplaceWithin {
        path: "index.html".to_owned(),
        pattern: title_pattern_bytes(),
        replacement: crate::bytes::copy_bytes(name.as_bytes()),
    });
    v.push(MutationStep::Overwrite {
        path: "src/App.tsx".to_owned(),
        content: app_component_content(),
    });
    v.push(MutationStep::DeleteFile { path: "src/App.css".to_owned() });
    v.push(MutationStep::DeleteFile { path: "src/assets/react.svg".to_owned() });
    v.push(MutationStep::CreateFile {
        path: "tailwind.config.js".to_owned(),
        content: tailwind_config_content(),
    });
    v.push(MutationStep::CreateFile {
        path: "postcss.config.js".to_owned(),
        content: postcss_config_content(),
    });
    v.push(MutationStep::Overwrite {
        path: "src/index.css".to_owned(),
        content: global_styles_content(),
    });
    proof {
        assert(step_views(v@) =~= pipeline_step_views(name@));
    }
    v
}

/// Runs the whole pipeline against the tree: succeeds exactly on a tree of
/// the generator's shape, leaving [`pipeline_tree_result`]; otherwise stops
/// at the first step whose target is missing, reports its position and path,
/// and keeps the mutations made before it, with no rollback.
pub fn run_pipeline(tree: &mut WorkingTree, name: &ProjectName) -> (r: Result<(), PipelineError>)
    ensures
        r is Ok <==> has_generator_shape(old(tree)@),
        ({
            let o = pipeline_outcome(old(tree)@, name@);
            &&& final(tree)@ == o.tree
            &&& match r {
                Ok(()) => o.failed_step is None && final(tree)@ == pipeline_tree_result(
                    old(tree)@,
                    name@,
                ),
                Err(e) => {
                    &&& o.failed_step == Some(e.step_index as int)
                    &&& e.step_index < 8
                    &&& e.path@ == step_path(pipeline_step_views(name@)[e.step_index as int])
                },
            }
        }),
{
    let steps = pipeline_steps(name);
    proof {
        lemma_pipeline_outcome(tree@, name@);
    }
    run_steps(tree, &steps)
}

/// Law: a run touches nothing but its eight target paths — whether it
/// completes or stops partway after a failure. Any other path is present
/// afterwards exactly when it was before, with its contents unchanged.
pub proof fn lemma_pipeline_touches_only_targets(
    t: Map<Seq<char>, Seq<u8>>,
    name: Seq<u8>,
    p: Seq<char>,
)
    requires
        !is_pipeline_target(p),
    ensures
        pipeline_tree_result(t, name).contains_key(p) == t.contains_key(p),
        t.contains_key(p) ==> pipeline_tree_result(t, name)[p] == t[p],
        pipeline_outcome(t, name).tree.contains_key(p) == t.contains_key(p),
        t.contains_key(p) ==> pipeline_outcome(t, name).tree[p] == t[p],
{
}

/// Law: a complete run leaves the eight targets in exactly the described
/// final state: the readme reduced to its heading, every title occurrence in
/// the HTML entry replaced by the name, the fixed component, framework and
/// stylesheet contents written, and the two deleted files gone.
pub proof fn lemma_pipeline_final_state(t: Map<Seq<char>, Seq<u8>>, name: Seq<u8>)
    ensures
        ({
            let done = pipeline_tree_result(t, name);
            &&& done.contains_key(readme_path()) && done[readme_path()] == readme_bytes(name)
            &&& done.contains_key(index_html_path()) && done[index_html_path()] == replace_bytes(
                t[index_html_path()],
                title_pattern(),
                name,
            )
            &&& done.contains_key(app_component_path()) && done[app_component_path()]
                == app_component_bytes()
            &&& !done.contains_key(app_styles_path())
            &&& !done.contains_key(logo_asset_path())
            &&& done.contains_key(tailwind_config_path()) && done[tailwind_config_path()]
                == tailwind_config_bytes()
            &&& done.contains_key(postcss_config_path()) && done[postcss_config_path()]
                == postcss_config_bytes()
            &&& done.contains_key(global_styles_path()) && done[global_styles_path()]
                == global_styles_bytes()
        }),
{
    lemma_paths_distinct();
}

/// The pipeline's overwrite and read-modify-write steps (steps 1 to 3 and 6
/// to 8), without the two deletes.
pub open spec fn rerun_step_views(name: Seq<u8>) -> Seq<StepView> {
    seq![
        StepView::Overwrite { path: readme_path(), content: readme_bytes(name) },
        StepView::ReplaceWithin {
            path: index_html_path(),
            pattern: title_pattern(),
            replacement: name,
        },
        StepView::Overwrite { path: app_component_path(), content: app_component_bytes() },
        StepView::CreateFile { path: tailwind_config_path(), content: tailwind_config_bytes() },
        StepView::CreateFile { path: postcss_config_path(), content: postcss_config_bytes() },
        StepView::Overwrite { path: global_styles_path(), content: global_styles_bytes() },
    ]
}

/// Law: the overwrite and read-modify-write steps are idempotent. Re-running
/// steps 1 to 3 and 6 to 8 against a completed run's own output succeeds and
/// reproduces that output byte for byte, provided the substituted HTML entry
/// no longer contains the template title (a project name can itself re-create
/// the title and defeat the substitution's stability, so that case is
/// excluded here).
pub proof fn lemma_rerun_overwrites_identical(t: Map<Seq<char>, Seq<u8>>, name: Seq<u8>)
    requires
        !occurs_in(replace_bytes(t[index_html_path()], title_pattern(), name), title_pattern()),
    ensures
        ({
            let done = pipeline_tree_result(t, name);
            let again = spec_run_steps(done, rerun_step_views(name));
            again.failed_step is None && again.tree == done
        }),
{
    lemma_paths_distinct();
    lemma_pipeline_final_state(t, name);
    let done = pipeline_tree_result(t, name);
    let s = rerun_step_views(name);
    let st0 = StepView::Overwrite { path: readme_path(), content: readme_bytes(name) };
    let st1 = StepView::ReplaceWithin {
        path: index_html_path(),
        pattern: title_pattern(),
        replacement: name,
    };
    let st2 = StepView::Overwrite { path: app_component_path(), content: app_component_bytes() };
    let st3 = StepView::CreateFile { path: tailwind_config_path(), content: tailwind_config_bytes() };
    let st4 = StepView::CreateFile { path: postcss_config_path(), content: postcss_config_bytes() };
    let st5 = StepView::Overwrite { path: global_styles_path(), content: global_styles_bytes() };
    let tail1 = seq![st1, st2, st3, st4, st5];
    let tail2 = seq![st2, st3, st4, st5];
    let tail3 = seq![st3, st4, st5];
    let tail4 = seq![st4, st5];
    let tail5 = seq![st5];
    assert(s.drop_first() =~= tail1);
    assert(tail1.drop_first() =~= tail2);
    assert(tail2.drop_first() =~= tail3);
    assert(tail3.drop_first() =~= tail4);
    assert(tail4.drop_first() =~= tail5);
    assert(tail5.drop_first() =~= Seq::<StepView>::empty());
    assert(done.insert(readme_path(), readme_bytes(name)) =~= done);
    assert(spec_apply_step(done, st0) == Some(done));
    let replaced_once = replace_bytes(t[index_html_path()], title_pattern(), name);
    lemma_replace_absent(replaced_once, title_pattern(), name);
    assert(done.insert(index_html_path(), replace_bytes(done[index_html_path()], title_pattern(), name))
        =~= done);
    assert(spec_apply_step(done, st1) == Some(done));
    assert(done.insert(app_component_path(), app_component_bytes()) =~= done);
    assert(spec_apply_step(done, st2) == Some(done));
    assert(done.insert(tailwind_config_path(), tailwind_config_bytes()) =~= done);
    assert(spec_apply_step(done, st3) == Some(done));
    assert(done.insert(postcss_config_path(), postcss_config_bytes()) =~= done);
    assert(spec_apply_step(done, st4) == Some(done));
    assert(done.insert(global_styles_path(), global_styles_bytes()) =~= done);
    assert(spec_apply_step(done, st5) == Some(done));
    assert(spec_run_steps(done, tail5) == shift_outcome(
        spec_run_steps(done, Seq::<StepView>::empty()),
        1,
    ));
    assert(spec_run_steps(done, tail4) == shift_outcome(spec_run_steps(done, tail5), 1));
    assert(spec_run_steps(done, tail3) == shift_outcome(spec_run_steps(done, tail4), 1));
    assert(spec_run_steps(done, tail2) == shift_outcome(spec_run_steps(done, tail3), 1));
    assert(spec_run_steps(done, tail1) == shift_outcome(spec_run_steps(done, tail2), 1));
    assert(spec_run_steps(done, s) == shift_outcome(spec_run_steps(done, tail1), 1));
}

/// Law: the delete steps are not idempotent. Against a completed run's own
/// output, re-running either delete finds its target already gone and fails
/// with a missing-file error.
pub proof fn lemma_delete_rerun_fails(t: Map<Seq<char>, Seq<u8>>, name: Seq<u8>)
    ensures
        ({
            let done = pipeline_tree_result(t, name);
            &&& spec_apply_step(done, StepView::DeleteFile { path: app_styles_path() }) is None
            &&& spec_apply_step(done, StepView::DeleteFile { path: logo_asset_path() }) is None
        }),
{
    lemma_pipeline_final_state(t, name);
}

/// Law: re-running the whole pipeline against its own output stops at the
/// first delete step, whose target no longer exists.
pub proof fn lemma_pipeline_rerun_fails(t: Map<Seq<char>, Seq<u8>>, name: Seq<u8>)
    ensures
        pipeline_outcome(pipeline_tree_result(t, name), name).failed_step == Some(3int),
{
    lemma_pipeline_final_state(t, name);
}

} // verus!
