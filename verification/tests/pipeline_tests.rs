use no_boilerplate_vite::name::ProjectName;
use no_boilerplate_vite::pipeline::{pipeline_steps, run_pipeline};
use no_boilerplate_vite::steps::{apply_step, MutationStep, StepError};
use no_boilerplate_vite::tree::WorkingTree;

const TEMPLATE_HTML: &[u8] = b"<!doctype html>\n<title>Vite + React + TS</title>\n<h1>Vite + React + TS</h1>\n";

const REPLACED_HTML: &[u8] = b"<!doctype html>\n<title>demo-app</title>\n<h1>demo-app</h1>\n";

const EXPECTED_APP_COMPONENT: &str = "export default function App() {
return (
    <h1 className=\"text-3xl p-2 font-bold underline\">
        Everything works!
    </h1>
    )
}";

const EXPECTED_TAILWIND_CONFIG: &str = "/** @type {import('tailwindcss').Config} */
export default {
    content: [
        \"./index.html\",
        \"./src/**/*.{js,ts,jsx,tsx}\",
      ],
    theme: {
        extend: {},
    },
    plugins: [],
}";

const EXPECTED_POSTCSS_CONFIG: &str = "export default {
    plugins: {
    tailwindcss: {},
    autoprefixer: {},
    },
}";

const EXPECTED_GLOBAL_STYLES: &str = "@tailwind base;\n@tailwind components;\n@tailwind utilities;";

fn generator_tree() -> WorkingTree {
    let mut t = WorkingTree::new();
    t.put_file("README.md".to_string(), b"# Vite template readme\n".to_vec());
    t.put_file("index.html".to_string(), TEMPLATE_HTML.to_vec());
    t.put_file("src/App.tsx".to_string(), b"the template app component".to_vec());
    t.put_file("src/App.css".to_string(), b".app { color: red }".to_vec());
    t.put_file("src/assets/react.svg".to_string(), b"<svg></svg>".to_vec());
    t.put_file("src/index.css".to_string(), b"body { margin: 0 }".to_vec());
    t
}

fn demo_name() -> ProjectName {
    ProjectName::parse(b"demo-app".to_vec()).unwrap()
}

#[test]
fn pipeline_produces_described_final_state() {
    let mut t = generator_tree();
    t.put_file("src/main.tsx".to_string(), b"untouched entry".to_vec());
    let name = demo_name();
    assert!(run_pipeline(&mut t, &name).is_ok());
    assert_eq!(t.read_file("README.md").unwrap().as_slice(), b"# demo-app");
    assert_eq!(t.read_file("index.html").unwrap().as_slice(), REPLACED_HTML);
    assert_eq!(
        t.read_file("src/App.tsx").unwrap().as_slice(),
        EXPECTED_APP_COMPONENT.as_bytes()
    );
    assert!(t.read_file("src/App.css").is_none());
    assert!(t.read_file("src/assets/react.svg").is_none());
    assert_eq!(
        t.read_file("tailwind.config.js").unwrap().as_slice(),
        EXPECTED_TAILWIND_CONFIG.as_bytes()
    );
    assert_eq!(
        t.read_file("postcss.config.js").unwrap().as_slice(),
        EXPECTED_POSTCSS_CONFIG.as_bytes()
    );
    assert_eq!(
        t.read_file("src/index.css").unwrap().as_slice(),
        EXPECTED_GLOBAL_STYLES.as_bytes()
    );
    // The unrelated file is untouched and nothing else appeared.
    assert_eq!(t.read_file("src/main.tsx").unwrap().as_slice(), b"untouched entry");
    assert_eq!(t.file_count(), 7);
}

#[test]
fn every_title_occurrence_is_replaced() {
    let mut t = generator_tree();
    let name = demo_name();
    assert!(run_pipeline(&mut t, &name).is_ok());
    let html = String::from_utf8(t.read_file("index.html").unwrap().clone()).unwrap();
    assert!(!html.contains("Vite + React + TS"));
    assert_eq!(html.matches("demo-app").count(), 2);
}

#[test]
fn readme_is_exactly_heading_and_name() {
    let mut t = generator_tree();
    let name = demo_name();
    assert!(run_pipeline(&mut t, &name).is_ok());
    assert_eq!(
        String::from_utf8(t.read_file("README.md").unwrap().clone()).unwrap(),
        "# demo-app"
    );
}

#[test]
fn pipeline_fails_fast_on_missing_readme() {
    let mut t = generator_tree();
    assert!(t.remove_file("README.md"));
    let name = demo_name();
    let err = run_pipeline(&mut t, &name).unwrap_err();
    assert_eq!(err.step_index, 0);
    assert_eq!(err.path, "README.md");
    // Nothing was mutated: the first step already failed.
    assert_eq!(t.read_file("index.html").unwrap().as_slice(), TEMPLATE_HTML);
    assert_eq!(t.file_count(), 5);
    assert!(t.read_file("tailwind.config.js").is_none());
}

#[test]
fn pipeline_keeps_partial_mutations_on_mid_run_failure() {
    let mut t = generator_tree();
    assert!(t.remove_file("src/App.css"));
    let name = demo_name();
    let err = run_pipeline(&mut t, &name).unwrap_err();
    assert_eq!(err.step_index, 3);
    assert_eq!(err.path, "src/App.css");
    // The three earlier steps went through and stay in place: no rollback.
    assert_eq!(t.read_file("README.md").unwrap().as_slice(), b"# demo-app");
    assert_eq!(t.read_file("index.html").unwrap().as_slice(), REPLACED_HTML);
    assert_eq!(
        t.read_file("src/App.tsx").unwrap().as_slice(),
        EXPECTED_APP_COMPONENT.as_bytes()
    );
    // The later steps never ran.
    assert!(t.read_file("src/assets/react.svg").is_some());
    assert!(t.read_file("tailwind.config.js").is_none());
    assert!(t.read_file("postcss.config.js").is_none());
    assert_eq!(t.read_file("src/index.css").unwrap().as_slice(), b"body { margin: 0 }");
}

#[test]
fn delete_steps_fail_when_rerun_against_own_output() {
    let mut t = generator_tree();
    let name = demo_name();
    assert!(run_pipeline(&mut t, &name).is_ok());
    let delete_css = MutationStep::DeleteFile { path: "src/App.css".to_string() };
    assert_eq!(apply_step(&mut t, &delete_css), Err(StepError::MissingFile));
    let delete_svg = MutationStep::DeleteFile { path: "src/assets/react.svg".to_string() };
    assert_eq!(apply_step(&mut t, &delete_svg), Err(StepError::MissingFile));
}

#[test]
fn whole_pipeline_rerun_stops_at_first_delete() {
    let mut t = generator_tree();
    let name = demo_name();
    assert!(run_pipeline(&mut t, &name).is_ok());
    let err = run_pipeline(&mut t, &name).unwrap_err();
    assert_eq!(err.step_index, 3);
    assert_eq!(err.path, "src/App.css");
}

#[test]
fn overwrite_steps_rerun_identically_against_own_output() {
    let mut t = generator_tree();
    let name = demo_name();
    assert!(run_pipeline(&mut t, &name).is_ok());
    let before: Vec<Vec<u8>> = [
        "README.md",
        "index.html",
        "src/App.tsx",
        "tailwind.config.js",
        "postcss.config.js",
        "src/index.css",
    ]
    .iter()
    .map(|p| t.read_file(p).unwrap().clone())
    .collect();
    // Re-run steps 1-3 and 6-8 (all but the two deletes) against the output.
    let steps = pipeline_steps(&name);
    for (i, step) in steps.iter().enumerate() {
        if i == 3 || i == 4 {
            continue;
        }
        assert_eq!(apply_step(&mut t, step), Ok(()));
    }
    let after: Vec<Vec<u8>> = [
        "README.md",
        "index.html",
        "src/App.tsx",
        "tailwind.config.js",
        "postcss.config.js",
        "src/index.css",
    ]
    .iter()
    .map(|p| t.read_file(p).unwrap().clone())
    .collect();
    assert_eq!(before, after);
    assert_eq!(t.file_count(), 6);
}

#[test]
fn pipeline_step_list_is_the_eight_described_steps() {
    let name = demo_name();
    let steps = pipeline_steps(&name);
    assert_eq!(steps.len(), 8);
    let expected_paths = [
        "README.md",
        "index.html",
        "src/App.tsx",
        "src/App.css",
        "src/assets/react.svg",
        "tailwind.config.js",
        "postcss.config.js",
        "src/index.css",
    ];
    for (i, step) in steps.iter().enumerate() {
        let path = match step {
            MutationStep::Overwrite { path, .. } => path,
            MutationStep::ReplaceWithin { path, .. } => path,
            MutationStep::CreateFile { path, .. } => path,
            MutationStep::DeleteFile { path } => path,
        };
        assert_eq!(path, expected_paths[i]);
    }
    match &steps[1] {
        MutationStep::ReplaceWithin { pattern, replacement, .. } => {
            assert_eq!(pattern.as_slice(), b"Vite + React + TS");
            assert_eq!(replacement.as_slice(), b"demo-app");
        }
        _ => panic!("step 2 must be the title substitution"),
    }
    assert!(matches!(&steps[3], MutationStep::DeleteFile { .. }));
    assert!(matches!(&steps[4], MutationStep::DeleteFile { .. }));
    assert!(matches!(&steps[5], MutationStep::CreateFile { .. }));
    assert!(matches!(&steps[6], MutationStep::CreateFile { .. }));
}
