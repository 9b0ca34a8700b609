//! Classification of a diff into a change category.
//!
//! The diff is read line by line.  A file header starts a new current file
//! and records its extension, `new file` and `modified` lines file the
//! current path, and content lines are counted.  The category is then chosen
//! from these signals by a fixed order of rules.

use vstd::prelude::*;
use vstd::string::StringExecFns;
use crate::text::{
    after_last, contains, copy_range, decimal, find_from, first_occurrence, from_chars,
    has_prefix, has_substring, is_listed, join, lemma_first_occurrence, lemma_leftmost_exists, occurs_at,
    push_decimal, push_joined, same_text, starts_with, strip_leading, take_after_last, texts, to_chars,
    trim_leading,
};

verus! {

/// The kind of change that a diff makes.
#[derive(Clone, Copy, Debug, PartialEq, Eq, Structural)]
pub enum Category {
    InitialSetup,
    Documentation,
    TestAddition,
    LargeFeature,
    MajorRefactor,
    Standard,
}

/// The signals that a diff gives about the change it makes.
pub struct Signals {
    /// The distinct extensions of the file headers, in order of appearance.
    pub file_types: Seq<Seq<char>>,
    /// The current path at each `new file` line.
    pub new_files: Seq<Seq<char>>,
    /// The current path at each `modified` line.
    pub modified_files: Seq<Seq<char>>,
    /// The number of added lines.
    pub additions: nat,
    /// The number of removed lines.
    pub deletions: nat,
}

/// The state of reading a diff line by line.
pub struct Tally {
    /// The path of the last file header seen, empty before the first one.
    pub current_file: Seq<char>,
    /// What the lines read so far have shown.
    pub signals: Signals,
}

/// The file name that marks a dependency manifest.
pub open spec fn manifest_name() -> Seq<char> {
    "Cargo.toml"@
}

/// `line` without a carriage return at its end.
pub open spec fn without_return(line: Seq<char>) -> Seq<char> {
    if line.len() > 0 && line.last() == '\r' {
        line.drop_last()
    } else {
        line
    }
}

/// The first line of a text that is not empty.  A line ends at a line feed;
/// a carriage return in front of that line feed belongs to the line ending.
/// The last line needs no line ending.
pub open spec fn first_line(text: Seq<char>) -> Seq<char> {
    if contains(text, "\n"@) {
        without_return(text.take(first_occurrence(text, "\n"@)))
    } else {
        text
    }
}

/// What follows the first line of a text and its line ending.
pub open spec fn after_first_line(text: Seq<char>) -> Seq<char> {
    if contains(text, "\n"@) {
        text.skip(first_occurrence(text, "\n"@) + 1)
    } else {
        Seq::empty()
    }
}

/// The lines of a text, without their line endings.
pub open spec fn lines(text: Seq<char>) -> Seq<Seq<char>>
    decreases text.len(),
    via lines_decreases
{
    if text.len() == 0 {
        Seq::empty()
    } else {
        seq![first_line(text)] + lines(after_first_line(text))
    }
}

#[via_fn]
proof fn lines_decreases(text: Seq<char>) {
    if text.len() != 0 {
        lemma_rest_is_shorter(text);
    }
}

/// What follows the first line of a text that is not empty is shorter than
/// the text.
pub proof fn lemma_rest_is_shorter(text: Seq<char>)
    requires
        text.len() > 0,
    ensures
        after_first_line(text).len() < text.len(),
{
    reveal_strlit("\n");
    if contains(text, "\n"@) {
        let i = choose|i: int| occurs_at(text, "\n"@, i);
        lemma_leftmost_exists(text, "\n"@, i);
    }
}

/// The path that a file header names: the text behind its last space,
/// without the leading run of `b` that marks the new side.
pub open spec fn header_path(line: Seq<char>) -> Seq<char> {
    strip_leading(after_last(line, " "@), 'b')
}

/// The extension of a path: the text behind its last `.`, or the whole path
/// when it has none.
pub open spec fn extension(path: Seq<char>) -> Seq<char> {
    after_last(path, "."@)
}

/// `list`, with `entry` added at the end unless it is already there.
pub open spec fn with_distinct(list: Seq<Seq<char>>, entry: Seq<char>) -> Seq<Seq<char>> {
    if list.contains(entry) {
        list
    } else {
        list.push(entry)
    }
}

/// The line starts a new file.
pub open spec fn is_header(line: Seq<char>) -> bool {
    has_prefix(line, "diff --git"@)
}

/// The line adds content: it starts with `+`, but not with `+++`.
pub open spec fn is_addition(line: Seq<char>) -> bool {
    has_prefix(line, "+"@) && !has_prefix(line, "+++"@)
}

/// The line removes content: it starts with `-`, but not with `---`.
pub open spec fn is_deletion(line: Seq<char>) -> bool {
    has_prefix(line, "-"@) && !has_prefix(line, "---"@)
}

/// The state before any line is read.
pub open spec fn empty_tally() -> Tally {
    Tally {
        current_file: Seq::empty(),
        signals: Signals {
            file_types: Seq::empty(),
            new_files: Seq::empty(),
            modified_files: Seq::empty(),
            additions: 0,
            deletions: 0,
        },
    }
}

/// The state after one more line.
pub open spec fn observe(t: Tally, line: Seq<char>) -> Tally {
    let s = t.signals;
    if is_header(line) {
        let path = header_path(line);
        Tally {
            current_file: path,
            signals: Signals { file_types: with_distinct(s.file_types, extension(path)), ..s },
        }
    } else if has_prefix(line, "new file"@) {
        Tally { signals: Signals { new_files: s.new_files.push(t.current_file), ..s }, ..t }
    } else if has_prefix(line, "modified"@) {
        Tally {
            signals: Signals { modified_files: s.modified_files.push(t.current_file), ..s },
            ..t
        }
    } else if is_addition(line) {
        Tally { signals: Signals { additions: s.additions + 1, ..s }, ..t }
    } else if is_deletion(line) {
        Tally { signals: Signals { deletions: s.deletions + 1, ..s }, ..t }
    } else {
        t
    }
}

/// The state after the given lines, read in order.
pub open spec fn tally(ls: Seq<Seq<char>>) -> Tally
    decreases ls.len(),
{
    if ls.len() == 0 {
        empty_tally()
    } else {
        observe(tally(ls.drop_last()), ls.last())
    }
}

/// The signals of a diff.
pub open spec fn diff_signals(diff: Seq<char>) -> Signals {
    tally(lines(diff)).signals
}

/// Some entry of `list` holds `pat`.
pub open spec fn any_contains(list: Seq<Seq<char>>, pat: Seq<char>) -> bool {
    exists|i: int| 0 <= i < list.len() && contains(#[trigger] list[i], pat)
}

/// The extension is one of documentation.
pub open spec fn is_doc_extension(ext: Seq<char>) -> bool {
    ext == "md"@ || ext == "txt"@
}

/// The first rule: more than five new files, one of them a dependency
/// manifest.
pub open spec fn is_initial_setup(s: Signals) -> bool {
    any_contains(s.new_files, manifest_name()) && s.new_files.len() > 5
}

/// The second rule: one extension only, and that one of documentation.
pub open spec fn is_documentation(s: Signals) -> bool {
    s.file_types.len() == 1 && is_doc_extension(s.file_types[0])
}

/// The third rule: a new file whose path holds `test` or `spec`.
pub open spec fn is_test_addition(s: Signals) -> bool {
    any_contains(s.new_files, "test"@) || any_contains(s.new_files, "spec"@)
}

/// The fourth rule: more than a hundred added lines, or more than five new
/// files.
pub open spec fn is_large_feature(s: Signals) -> bool {
    s.additions > 100 || s.new_files.len() > 5
}

/// The fifth rule: more than twice as many removed lines as added ones.
pub open spec fn is_major_refactor(s: Signals) -> bool {
    s.deletions > 2 * s.additions
}

/// The category of a change with the given signals.  The rules are tried in
/// this order and the first that matches decides.
pub open spec fn categorize(s: Signals) -> Category {
    if is_initial_setup(s) {
        Category::InitialSetup
    } else if is_documentation(s) {
        Category::Documentation
    } else if is_test_addition(s) {
        Category::TestAddition
    } else if is_large_feature(s) {
        Category::LargeFeature
    } else if is_major_refactor(s) {
        Category::MajorRefactor
    } else {
        Category::Standard
    }
}

/// The category of a diff.
pub open spec fn classify(diff: Seq<char>) -> Category {
    categorize(diff_signals(diff))
}

impl Category {
    /// The commit type that goes with the category.
    pub open spec fn suggested_type(self) -> Seq<char> {
        match self {
            Category::InitialSetup => "feat"@,
            Category::Documentation => "docs"@,
            Category::TestAddition => "test"@,
            Category::LargeFeature => "feat"@,
            Category::MajorRefactor => "refactor"@,
            Category::Standard => "feat"@,
        }
    }

    /// The category in words.
    pub open spec fn description(self) -> Seq<char> {
        match self {
            Category::InitialSetup => "initial project setup"@,
            Category::Documentation => "documentation change"@,
            Category::TestAddition => "test addition"@,
            Category::LargeFeature => "large feature implementation"@,
            Category::MajorRefactor => "major refactoring"@,
            Category::Standard => "standard change"@,
        }
    }

    /// The commit type that goes with the category.
    pub fn commit_type(self) -> (t: &'static str)
        ensures
            t@ == self.suggested_type(),
    {
        match self {
            Category::InitialSetup => "feat",
            Category::Documentation => "docs",
            Category::TestAddition => "test",
            Category::LargeFeature => "feat",
            Category::MajorRefactor => "refactor",
            Category::Standard => "feat",
        }
    }

    /// The category in words.
    pub fn describe(self) -> (t: &'static str)
        ensures
            t@ == self.description(),
    {
        match self {
            Category::InitialSetup => "initial project setup",
            Category::Documentation => "documentation change",
            Category::TestAddition => "test addition",
            Category::LargeFeature => "large feature implementation",
            Category::MajorRefactor => "major refactoring",
            Category::Standard => "standard change",
        }
    }
}

/// The one-line summary of a classification that goes into a prompt.
pub open spec fn summary(category: Category, s: Signals) -> Seq<char> {
    category.description() + " (suggested type: "@ + category.suggested_type() + ") with "@
        + decimal(s.new_files.len()) + " new files and "@ + decimal(s.modified_files.len())
        + " modified files. Changes include "@ + decimal(s.additions) + " additions and "@
        + decimal(s.deletions) + " deletions across file types: "@ + join(s.file_types, ", "@)
}

/// What a diff has been classified as, with the signals that decided it.
#[derive(Debug)]
pub struct CommitContext {
    /// The category of the change.
    pub category: Category,
    /// The distinct extensions of the files touched, in order of appearance.
    pub file_types: Vec<String>,
    /// The paths of the files that the diff adds.
    pub new_files: Vec<String>,
    /// The paths of the files that the diff marks as modified.
    pub modified_files: Vec<String>,
    /// The number of added lines.
    pub total_additions: usize,
    /// The number of removed lines.
    pub total_deletions: usize,
}

/// The patterns that the line reader looks for.
struct Markers {
    header: Vec<char>,
    new_file: Vec<char>,
    modified: Vec<char>,
    plus: Vec<char>,
    plus_run: Vec<char>,
    minus: Vec<char>,
    minus_run: Vec<char>,
    space: Vec<char>,
    dot: Vec<char>,
    newline: Vec<char>,
}

impl Markers {
    spec fn wf(&self) -> bool {
        &&& self.header@ == "diff --git"@
        &&& self.new_file@ == "new file"@
        &&& self.modified@ == "modified"@
        &&& self.plus@ == "+"@
        &&& self.plus_run@ == "+++"@
        &&& self.minus@ == "-"@
        &&& self.minus_run@ == "---"@
        &&& self.space@ == " "@
        &&& self.dot@ == "."@
        &&& self.newline@ == "\n"@
    }

    fn new() -> (m: Markers)
        ensures
            m.wf(),
    {
        Markers {
            header: to_chars("diff --git"),
            new_file: to_chars("new file"),
            modified: to_chars("modified"),
            plus: to_chars("+"),
            plus_run: to_chars("+++"),
            minus: to_chars("-"),
            minus_run: to_chars("---"),
            space: to_chars(" "),
            dot: to_chars("."),
            newline: to_chars("\n"),
        }
    }
}

/// Whether some entry of `list` holds `pat`.
pub fn any_has_substring(list: &Vec<String>, pat: &str) -> (found: bool)
    ensures
        found == any_contains(texts(list@), pat@),
{
    let pattern = to_chars(pat);
    let mut i: usize = 0;
    while i < list.len()
        invariant
            i <= list.len(),
            pattern@ == pat@,
            forall|j: int| 0 <= j < i ==> !contains(#[trigger] texts(list@)[j], pat@),
        decreases list.len() - i,
    {
        let entry = to_chars(list[i].as_str());
        if has_substring(&entry, &pattern) {
            assert(contains(texts(list@)[i as int], pat@));
            return true;
        }
        i += 1;
    }
    false
}

impl CommitContext {
    /// The signals held by the context.
    pub open spec fn signals(&self) -> Signals {
        Signals {
            file_types: texts(self.file_types@),
            new_files: texts(self.new_files@),
            modified_files: texts(self.modified_files@),
            additions: self.total_additions as nat,
            deletions: self.total_deletions as nat,
        }
    }

    /// The category is the one that the signals decide, and no extension is
    /// listed twice.
    pub open spec fn wf(&self) -> bool {
        &&& self.category == categorize(self.signals())
        &&& self.signals().file_types.no_duplicates()
    }

    /// Chooses the category for the signals gathered.
    fn decide(&self) -> (category: Category)
        ensures
            category == categorize(self.signals()),
    {
        let many_new = self.new_files.len() > 5;
        if many_new && any_has_substring(&self.new_files, "Cargo.toml") {
            return Category::InitialSetup;
        }
        if self.file_types.len() == 1 {
            let only = to_chars(self.file_types[0].as_str());
            assert(texts(self.file_types@)[0] == only@);
            if same_text(&only, &to_chars("md")) || same_text(&only, &to_chars("txt")) {
                return Category::Documentation;
            }
        }
        if any_has_substring(&self.new_files, "test") || any_has_substring(
            &self.new_files,
            "spec",
        ) {
            return Category::TestAddition;
        }
        if self.total_additions > 100 || many_new {
            return Category::LargeFeature;
        }
        if self.total_additions <= usize::MAX / 2 && self.total_deletions > 2
            * self.total_additions {
            return Category::MajorRefactor;
        }
        Category::Standard
    }

    /// Takes one line of a diff into account.
    fn observe_line(&mut self, current: &mut String, line: &Vec<char>, m: &Markers)
        requires
            m.wf(),
            old(self).total_additions < usize::MAX,
            old(self).total_deletions < usize::MAX,
            old(self).signals().file_types.no_duplicates(),
        ensures
            (Tally { current_file: final(current)@, signals: final(self).signals() }) == observe(
                (Tally { current_file: old(current)@, signals: old(self).signals() }),
                line@,
            ),
            final(self).category == old(self).category,
            final(self).total_additions <= old(self).total_additions + 1,
            final(self).total_deletions <= old(self).total_deletions + 1,
            final(self).signals().file_types.no_duplicates(),
    {
        if starts_with(line, &m.header) {
            let path = trim_leading(&take_after_last(line, &m.space), 'b');
            let ext = take_after_last(&path, &m.dot);
            if !is_listed(&ext, &self.file_types) {
                self.file_types.push(from_chars(&ext));
                assert(texts(self.file_types@) =~= texts(old(self).file_types@).push(ext@));
            }
            *current = from_chars(&path);
        } else if starts_with(line, &m.new_file) {
            self.new_files.push(current.clone());
            assert(texts(self.new_files@) =~= texts(old(self).new_files@).push(current@));
        } else if starts_with(line, &m.modified) {
            self.modified_files.push(current.clone());
            assert(texts(self.modified_files@) =~= texts(old(self).modified_files@).push(
                current@,
            ));
        } else if starts_with(line, &m.plus) && !starts_with(line, &m.plus_run) {
            self.total_additions += 1;
        } else if starts_with(line, &m.minus) && !starts_with(line, &m.minus_run) {
            self.total_deletions += 1;
        }
    }

    /// Classifies a diff.
    pub fn from_diff(diff: &str) -> (ctx: CommitContext)
        ensures
            ctx.signals() == diff_signals(diff@),
            ctx.category == classify(diff@),
            ctx.wf(),
    {
        let chars = to_chars(diff);
        let m = Markers::new();
        let mut ctx = CommitContext {
            category: Category::Standard,
            file_types: Vec::new(),
            new_files: Vec::new(),
            modified_files: Vec::new(),
            total_additions: 0,
            total_deletions: 0,
        };
        let mut current = String::new();
        let mut pos: usize = 0;
        let ghost mut done: Seq<Seq<char>> = Seq::empty();
        proof {
            reveal_strlit("\n");
            assert(chars@.skip(0) =~= chars@);
            assert(done + lines(chars@) =~= lines(chars@));
            assert(texts(ctx.file_types@) =~= Seq::<Seq<char>>::empty());
            assert(texts(ctx.new_files@) =~= Seq::<Seq<char>>::empty());
            assert(texts(ctx.modified_files@) =~= Seq::<Seq<char>>::empty());
        }
        while pos < chars.len()
            invariant
                pos <= chars.len(),
                m.wf(),
                "\n"@.len() == 1,
                lines(chars@) == done + lines(chars@.skip(pos as int)),
                (Tally { current_file: current@, signals: ctx.signals() }) == tally(done),
                ctx.total_additions <= pos,
                ctx.total_deletions <= pos,
                ctx.signals().file_types.no_duplicates(),
            decreases chars.len() - pos,
        {
            let ghost rest = chars@.skip(pos as int);
            let end: usize;
            let next: usize;
            match find_from(&chars, &m.newline, pos) {
                Some(i) => {
                    proof {
                        lemma_first_occurrence(rest, "\n"@, i - pos);
                        assert(rest.take(i - pos) =~= chars@.subrange(pos as int, i as int));
                    }
                    next = i + 1;
                    if i > pos && chars[i - 1] == '\r' {
                        end = i - 1;
                        assert(chars@.subrange(pos as int, i as int).drop_last()
                            =~= chars@.subrange(pos as int, end as int));
                    } else {
                        end = i;
                    }
                    assert(chars@.skip(next as int) =~= rest.skip(i - pos + 1));
                },
                None => {
                    end = chars.len();
                    next = chars.len();
                    assert(chars@.subrange(pos as int, end as int) =~= rest);
                    assert(chars@.skip(next as int) =~= Seq::<char>::empty());
                },
            }
            let line = copy_range(&chars, pos, end);
            proof {
                assert(line@ == first_line(rest));
                assert(chars@.skip(next as int) == after_first_line(rest));
                assert(done + lines(rest) =~= done.push(line@) + lines(chars@.skip(next as int)));
                assert(done.push(line@).drop_last() =~= done);
                done = done.push(line@);
            }
            ctx.observe_line(&mut current, &line, &m);
            pos = next;
        }
        proof {
            assert(done + lines(chars@.skip(pos as int)) =~= done);
        }
        ctx.category = ctx.decide();
        ctx
    }

    /// The commit type suggested for the change.
    pub fn get_suggested_type(&self) -> (t: &'static str)
        ensures
            t@ == self.category.suggested_type(),
    {
        self.category.commit_type()
    }

    /// The one-line summary of the classification that goes into a prompt.
    pub fn to_prompt_context(&self) -> (out: String)
        ensures
            out@ == summary(self.category, self.signals()),
    {
        let mut out = self.category.describe().to_owned();
        out.append(" (suggested type: ");
        out.append(self.get_suggested_type());
        out.append(") with ");
        push_decimal(&mut out, self.new_files.len());
        out.append(" new files and ");
        push_decimal(&mut out, self.modified_files.len());
        out.append(" modified files. Changes include ");
        push_decimal(&mut out, self.total_additions);
        out.append(" additions and ");
        push_decimal(&mut out, self.total_deletions);
        out.append(" deletions across file types: ");
        push_joined(&mut out, &self.file_types, ", ");
        out
    }
}

/// No line of `ls` is a file header or adds or removes content.
pub open spec fn is_plain(ls: Seq<Seq<char>>) -> bool {
    forall|i: int|
        0 <= i < ls.len() ==> !is_header(#[trigger] ls[i]) && !is_addition(ls[i]) && !is_deletion(
            ls[i],
        )
}

/// Lines without file headers and without content lines leave the counters
/// at zero, record no extension, and file nothing but the empty path.
pub proof fn lemma_plain_tally(ls: Seq<Seq<char>>)
    requires
        is_plain(ls),
    ensures
        tally(ls).current_file == Seq::<char>::empty(),
        tally(ls).signals.file_types == Seq::<Seq<char>>::empty(),
        tally(ls).signals.additions == 0,
        tally(ls).signals.deletions == 0,
        forall|i: int|
            0 <= i < tally(ls).signals.new_files.len() ==> #[trigger] tally(
                ls,
            ).signals.new_files[i] == Seq::<char>::empty(),
    decreases ls.len(),
{
    if ls.len() > 0 {
        let front = ls.drop_last();
        assert forall|i: int| 0 <= i < front.len() implies !is_header(#[trigger] front[i])
            && !is_addition(front[i]) && !is_deletion(front[i]) by {
            assert(front[i] == ls[i]);
        }
        lemma_plain_tally(front);
        assert(!is_header(ls[ls.len() - 1]));
    }
}

/// A diff without file headers and without added or removed lines is a
/// standard change, for which `feat` is suggested, as long as it marks no
/// more than five files as new.
pub proof fn law_plain_diff_is_standard(diff: Seq<char>)
    requires
        is_plain(lines(diff)),
        diff_signals(diff).new_files.len() <= 5,
    ensures
        classify(diff) == Category::Standard,
        classify(diff).suggested_type() == "feat"@,
{
    reveal_strlit("test");
    reveal_strlit("spec");
    lemma_plain_tally(lines(diff));
    let s = diff_signals(diff);
    assert forall|i: int| 0 <= i < s.new_files.len() implies !contains(
        #[trigger] s.new_files[i],
        "test"@,
    ) && !contains(s.new_files[i], "spec"@) by {
        assert(s.new_files[i].len() == 0);
        assert forall|j: int| !occurs_at(s.new_files[i], "test"@, j) by {}
        assert forall|j: int| !occurs_at(s.new_files[i], "spec"@, j) by {}
    }
}

/// The rules are tried in order: more than five new files with a dependency
/// manifest among them make an initial setup whatever else the diff shows,
/// even where its only extension is one of documentation.
pub proof fn law_setup_precedes_documentation(s: Signals)
    requires
        s.new_files.len() > 5,
        any_contains(s.new_files, manifest_name()),
    ensures
        categorize(s) == Category::InitialSetup,
{
}

/// More than a hundred added lines make a large feature wherever none of the
/// three rules before applies, however many lines are removed.
pub proof fn law_many_additions_make_large_feature(s: Signals)
    requires
        !is_initial_setup(s),
        !is_documentation(s),
        !is_test_addition(s),
        s.additions > 100,
    ensures
        categorize(s) == Category::LargeFeature,
{
}

/// More than twice as many removed lines as added ones make a major
/// refactoring wherever none of the four rules before applies.
pub proof fn law_many_deletions_make_major_refactor(s: Signals)
    requires
        !is_initial_setup(s),
        !is_documentation(s),
        !is_test_addition(s),
        !is_large_feature(s),
        s.deletions > 2 * s.additions,
    ensures
        categorize(s) == Category::MajorRefactor,
{
}

} // verus!
