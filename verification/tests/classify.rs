use git_commit_sage::classify::{Category, CommitContext};

fn repeat_line(line: &str, times: usize) -> String {
    let mut out = String::new();
    for _ in 0..times {
        out.push_str(line);
        out.push('\n');
    }
    out
}

#[test]
fn empty_diff_is_standard() {
    let ctx = CommitContext::from_diff("");
    assert_eq!(ctx.category, Category::Standard);
    assert_eq!(ctx.get_suggested_type(), "feat");
    assert!(ctx.file_types.is_empty());
    assert!(ctx.new_files.is_empty());
    assert!(ctx.modified_files.is_empty());
    assert_eq!(ctx.total_additions, 0);
    assert_eq!(ctx.total_deletions, 0);
}

#[test]
fn diff_without_headers_and_content_lines_is_standard() {
    let diff = "index 83db48f..bf269f4 100644\n context line\n+++ b/file\n--- a/file\n@@ -1 +1 @@\n";
    let ctx = CommitContext::from_diff(diff);
    assert_eq!(ctx.category, Category::Standard);
    assert_eq!(ctx.get_suggested_type(), "feat");
    assert_eq!(ctx.total_additions, 0);
    assert_eq!(ctx.total_deletions, 0);
}

#[test]
fn five_new_file_lines_without_header_are_standard() {
    let ctx = CommitContext::from_diff(&repeat_line("new file mode 100644", 5));
    assert_eq!(ctx.new_files, vec![""; 5]);
    assert_eq!(ctx.category, Category::Standard);
}

#[test]
fn six_new_file_lines_without_header_are_a_large_feature() {
    let ctx = CommitContext::from_diff(&repeat_line("new file mode 100644", 6));
    assert_eq!(ctx.new_files, vec![""; 6]);
    assert_eq!(ctx.total_additions, 0);
    assert_eq!(ctx.total_deletions, 0);
    assert!(ctx.file_types.is_empty());
    assert_eq!(ctx.category, Category::LargeFeature);
}

#[test]
fn setup_rule_comes_before_documentation_rule() {
    let mut diff = String::from("diff --git a/Cargo.toml.md b/Cargo.toml.md\n");
    diff.push_str(&repeat_line("new file mode 100644", 6));
    let ctx = CommitContext::from_diff(&diff);
    assert_eq!(ctx.file_types, vec!["md"]);
    assert_eq!(ctx.new_files.len(), 6);
    assert_eq!(ctx.category, Category::InitialSetup);
    assert_eq!(ctx.get_suggested_type(), "feat");
}

#[test]
fn manifest_with_five_new_files_is_no_setup() {
    let mut diff = String::from("diff --git a/Cargo.toml b/Cargo.toml\n");
    diff.push_str(&repeat_line("new file mode 100644", 5));
    let ctx = CommitContext::from_diff(&diff);
    assert_eq!(ctx.file_types, vec!["toml"]);
    assert_eq!(ctx.category, Category::Standard);
}

#[test]
fn many_additions_are_a_large_feature() {
    let mut diff = String::from("diff --git a/src/lib.rs b/src/lib.rs\n");
    diff.push_str(&repeat_line("+added", 150));
    diff.push_str(&repeat_line("-removed", 10));
    let ctx = CommitContext::from_diff(&diff);
    assert_eq!(ctx.total_additions, 150);
    assert_eq!(ctx.total_deletions, 10);
    assert_eq!(ctx.category, Category::LargeFeature);
    assert_eq!(ctx.get_suggested_type(), "feat");
}

#[test]
fn hundred_additions_are_not_yet_a_large_feature() {
    let mut diff = String::from("diff --git a/src/lib.rs b/src/lib.rs\n");
    diff.push_str(&repeat_line("+added", 100));
    let ctx = CommitContext::from_diff(&diff);
    assert_eq!(ctx.total_additions, 100);
    assert_eq!(ctx.category, Category::Standard);
    diff.push_str("+one more\n");
    assert_eq!(CommitContext::from_diff(&diff).category, Category::LargeFeature);
}

#[test]
fn many_deletions_are_a_major_refactor() {
    let mut diff = String::from("diff --git a/src/lib.rs b/src/lib.rs\n");
    diff.push_str(&repeat_line("+added", 5));
    diff.push_str(&repeat_line("-removed", 30));
    let ctx = CommitContext::from_diff(&diff);
    assert_eq!(ctx.total_additions, 5);
    assert_eq!(ctx.total_deletions, 30);
    assert_eq!(ctx.category, Category::MajorRefactor);
    assert_eq!(ctx.get_suggested_type(), "refactor");
}

#[test]
fn twice_as_many_deletions_are_no_refactor() {
    let mut diff = String::from("diff --git a/src/lib.rs b/src/lib.rs\n");
    diff.push_str(&repeat_line("+added", 5));
    diff.push_str(&repeat_line("-removed", 10));
    assert_eq!(CommitContext::from_diff(&diff).category, Category::Standard);
    diff.push_str("-one more\n");
    assert_eq!(CommitContext::from_diff(&diff).category, Category::MajorRefactor);
}

#[test]
fn large_feature_rule_comes_before_refactor_rule() {
    let mut diff = String::new();
    diff.push_str(&repeat_line("+added", 101));
    diff.push_str(&repeat_line("-removed", 500));
    assert_eq!(CommitContext::from_diff(&diff).category, Category::LargeFeature);
}

#[test]
fn single_documentation_extension_is_documentation() {
    let diff = "diff --git a/README.md b/README.md\n+hello\n";
    let ctx = CommitContext::from_diff(diff);
    assert_eq!(ctx.file_types, vec!["md"]);
    assert_eq!(ctx.category, Category::Documentation);
    assert_eq!(ctx.get_suggested_type(), "docs");
    let txt = "diff --git a/notes.txt b/notes.txt\n";
    assert_eq!(CommitContext::from_diff(txt).category, Category::Documentation);
}

#[test]
fn extensions_are_listed_once() {
    let diff = "diff --git a/README.md b/README.md\n+a\ndiff --git a/CHANGES.md b/CHANGES.md\n+b\n";
    let ctx = CommitContext::from_diff(diff);
    assert_eq!(ctx.file_types, vec!["md"]);
    assert_eq!(ctx.category, Category::Documentation);
}

#[test]
fn two_extensions_are_no_documentation() {
    let diff = "diff --git a/README.md b/README.md\ndiff --git a/a.rs b/a.rs\ndiff --git a/b.md b/b.md\n";
    let ctx = CommitContext::from_diff(diff);
    assert_eq!(ctx.file_types, vec!["md", "rs"]);
    assert_eq!(ctx.category, Category::Standard);
}

#[test]
fn documentation_rule_comes_before_test_rule() {
    let diff = "diff --git a/test.md b/test.md\nnew file mode 100644\n";
    assert_eq!(CommitContext::from_diff(diff).category, Category::Documentation);
}

#[test]
fn new_test_file_is_a_test_addition() {
    let diff = "diff --git a/src/parser_test.rs b/src/parser_test.rs\nnew file mode 100644\n+x\n";
    let ctx = CommitContext::from_diff(diff);
    assert_eq!(ctx.new_files, vec!["/src/parser_test.rs"]);
    assert_eq!(ctx.category, Category::TestAddition);
    assert_eq!(ctx.get_suggested_type(), "test");
    let spec = "diff --git a/parser.spec.js b/parser.spec.js\nnew file mode 100644\n";
    assert_eq!(CommitContext::from_diff(spec).category, Category::TestAddition);
}

#[test]
fn test_rule_comes_before_large_feature_rule() {
    let mut diff = String::from("diff --git a/tests/a.rs b/tests/a.rs\nnew file mode 100644\n");
    diff.push_str(&repeat_line("+added", 200));
    assert_eq!(CommitContext::from_diff(&diff).category, Category::TestAddition);
}

#[test]
fn modified_test_file_is_no_test_addition() {
    let diff = "diff --git a/tests/a.rs b/tests/a.rs\nmodified\n+x\n";
    let ctx = CommitContext::from_diff(diff);
    assert_eq!(ctx.modified_files, vec!["/tests/a.rs"]);
    assert!(ctx.new_files.is_empty());
    assert_eq!(ctx.category, Category::Standard);
}

#[test]
fn header_path_is_last_token_without_leading_b() {
    let ctx = CommitContext::from_diff("diff --git a/src/main.rs b/src/main.rs\nnew file\n");
    assert_eq!(ctx.new_files, vec!["/src/main.rs"]);
    assert_eq!(ctx.file_types, vec!["rs"]);
    let ctx = CommitContext::from_diff("diff --git a/x bbb/bin/tool\nnew file\n");
    assert_eq!(ctx.new_files, vec!["/bin/tool"]);
    assert_eq!(ctx.file_types, vec!["/bin/tool"]);
    let ctx = CommitContext::from_diff("diff --git\nnew file\n");
    assert_eq!(ctx.new_files, vec!["--git"]);
    assert_eq!(ctx.file_types, vec!["--git"]);
    let ctx = CommitContext::from_diff("diff --git a/x \nnew file\n");
    assert_eq!(ctx.new_files, vec![""]);
    assert_eq!(ctx.file_types, vec![""]);
}

#[test]
fn extension_is_text_after_last_dot() {
    let ctx = CommitContext::from_diff("diff --git a/a.tar.gz b/a.tar.gz\ndiff --git a/Makefile b/Makefile\ndiff --git a/x. b/x.\n");
    assert_eq!(ctx.file_types, vec!["gz", "/Makefile", ""]);
}

#[test]
fn new_files_follow_the_current_header() {
    let diff = "new file\ndiff --git a/a.rs b/a.rs\nnew file mode 100644\nnew file again\ndiff --git a/b.rs b/b.rs\nmodified\n";
    let ctx = CommitContext::from_diff(diff);
    assert_eq!(ctx.new_files, vec!["", "/a.rs", "/a.rs"]);
    assert_eq!(ctx.modified_files, vec!["/b.rs"]);
    assert_eq!(ctx.file_types, vec!["rs"]);
}

#[test]
fn file_markers_are_not_content_lines() {
    let diff = "--- a/file\n+++ b/file\n+one\n++two\n-three\n--four\n+\n-\n +no\n";
    let ctx = CommitContext::from_diff(diff);
    assert_eq!(ctx.total_additions, 3);
    assert_eq!(ctx.total_deletions, 3);
}

#[test]
fn line_endings_do_not_belong_to_lines() {
    let ctx = CommitContext::from_diff("diff --git a/a.rs b/a.rs\r\nnew file\r\n+x\r\n-y");
    assert_eq!(ctx.new_files, vec!["/a.rs"]);
    assert_eq!(ctx.file_types, vec!["rs"]);
    assert_eq!(ctx.total_additions, 1);
    assert_eq!(ctx.total_deletions, 1);
    let ctx = CommitContext::from_diff("diff --git a/a.rs b/a.rs\r");
    assert_eq!(ctx.file_types, vec!["rs\r"]);
    let ctx = CommitContext::from_diff("+a\n\n\n+b\n");
    assert_eq!(ctx.total_additions, 2);
}

#[test]
fn signals_agree_with_line_iteration_of_std() {
    let diff = "+a\r\n+b\n\r\n-c\r-d\n\n+e\r\r\n+++\n+";
    let ctx = CommitContext::from_diff(diff);
    let additions = diff
        .lines()
        .filter(|l| l.starts_with('+') && !l.starts_with("+++"))
        .count();
    let deletions = diff
        .lines()
        .filter(|l| l.starts_with('-') && !l.starts_with("---"))
        .count();
    assert_eq!(ctx.total_additions, additions);
    assert_eq!(ctx.total_deletions, deletions);
    assert_eq!(additions, 4);
    assert_eq!(deletions, 1);
}

#[test]
fn classification_is_repeatable() {
    let diff = "diff --git a/a.rs b/a.rs\nnew file\n+x\n-y\n-z\n-w\n";
    let one = CommitContext::from_diff(diff);
    let two = CommitContext::from_diff(diff);
    assert_eq!(one.category, two.category);
    assert_eq!(one.file_types, two.file_types);
    assert_eq!(one.new_files, two.new_files);
    assert_eq!(one.total_additions, two.total_additions);
    assert_eq!(one.total_deletions, two.total_deletions);
    assert_eq!(one.category, Category::MajorRefactor);
}

#[test]
fn categories_have_their_commit_types_and_descriptions() {
    let all = [
        (Category::InitialSetup, "feat", "initial project setup"),
        (Category::Documentation, "docs", "documentation change"),
        (Category::TestAddition, "test", "test addition"),
        (Category::LargeFeature, "feat", "large feature implementation"),
        (Category::MajorRefactor, "refactor", "major refactoring"),
        (Category::Standard, "feat", "standard change"),
    ];
    for (category, commit_type, description) in all {
        assert_eq!(category.commit_type(), commit_type);
        assert_eq!(category.describe(), description);
    }
}

#[test]
fn prompt_context_of_empty_diff() {
    let ctx = CommitContext::from_diff("");
    assert_eq!(
        ctx.to_prompt_context(),
        "standard change (suggested type: feat) with 0 new files and 0 modified files. Changes include 0 additions and 0 deletions across file types: "
    );
}

#[test]
fn prompt_context_lists_counts_and_extensions() {
    let mut diff = String::from("diff --git a/a.rs b/a.rs\nnew file\ndiff --git a/b.toml b/b.toml\nmodified\nmodified\n");
    diff.push_str(&repeat_line("+added", 12));
    diff.push_str(&repeat_line("-removed", 105));
    let ctx = CommitContext::from_diff(&diff);
    assert_eq!(
        ctx.to_prompt_context(),
        "major refactoring (suggested type: refactor) with 1 new files and 2 modified files. Changes include 12 additions and 105 deletions across file types: rs, toml"
    );
}

#[test]
fn context_built_by_hand_is_summarised_from_its_fields() {
    let ctx = CommitContext {
        category: Category::Documentation,
        file_types: vec!["md".to_string(), "txt".to_string(), "rst".to_string()],
        new_files: vec![],
        modified_files: vec!["a".to_string()],
        total_additions: 1000,
        total_deletions: 9,
    };
    assert_eq!(ctx.get_suggested_type(), "docs");
    assert_eq!(
        ctx.to_prompt_context(),
        "documentation change (suggested type: docs) with 0 new files and 1 modified files. Changes include 1000 additions and 9 deletions across file types: md, txt, rst"
    );
}
