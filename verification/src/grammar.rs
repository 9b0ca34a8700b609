//! The structural grammar of a conventional commit message:
//! `type[(scope)]: description`, with a fixed vocabulary of types.
//!
//! Only the position of the separator and the type are checked.  The scope,
//! the casing of the description and the length of the message are not.

use vstd::prelude::*;
use crate::text::{
    before_first, contains, copy_range, find_first, first_occurrence, from_chars,
    is_listed, lemma_first_occurrence, lemma_leftmost_exists, occurs_at,
    take_before_first, texts, to_chars,
};

verus! {

/// The commit types of the vocabulary, in their customary order.
pub open spec fn commit_types() -> Seq<Seq<char>> {
    seq![
        "feat"@,
        "fix"@,
        "docs"@,
        "style"@,
        "refactor"@,
        "perf"@,
        "test"@,
        "build"@,
        "ci"@,
        "chore"@,
        "revert"@,
    ]
}

/// `t` is one of the commit types of the vocabulary.
pub open spec fn is_commit_type(t: Seq<char>) -> bool {
    commit_types().contains(t)
}

/// The type named by the part of a message in front of its separator: the
/// text in front of the first `(`, or all of it when there is no scope.
pub open spec fn type_token(head: Seq<char>) -> Seq<char> {
    before_first(head, "("@)
}

/// A message is conventional when it holds the separator `": "` and the text
/// in front of the first separator names a commit type of the vocabulary.
pub open spec fn is_conventional(message: Seq<char>) -> bool {
    contains(message, ": "@) && is_commit_type(type_token(before_first(message, ": "@)))
}

/// The type that a message leads with: the text in front of the first `:`,
/// cut at the first `(`.
pub open spec fn leading_type(message: Seq<char>) -> Seq<char> {
    before_first(before_first(message, ":"@), "("@)
}

/// The commit types of the vocabulary.
pub fn conventional_types() -> (types: Vec<String>)
    ensures
        texts(types@) == commit_types(),
{
    let mut types: Vec<String> = Vec::new();
    types.push("feat".to_owned());
    types.push("fix".to_owned());
    types.push("docs".to_owned());
    types.push("style".to_owned());
    types.push("refactor".to_owned());
    types.push("perf".to_owned());
    types.push("test".to_owned());
    types.push("build".to_owned());
    types.push("ci".to_owned());
    types.push("chore".to_owned());
    types.push("revert".to_owned());
    assert(texts(types@) =~= commit_types());
    types
}

/// Checks whether a commit message follows the conventional structure
/// `type[(scope)]: description`.
pub fn is_conventional_commit(message: &str) -> (ok: bool)
    ensures
        ok == is_conventional(message@),
{
    let chars = to_chars(message);
    let separator = to_chars(": ");
    match find_first(&chars, &separator) {
        None => false,
        Some(i) => {
            proof {
                lemma_first_occurrence(chars@, separator@, i as int);
            }
            let head = copy_range(&chars, 0, i);
            let commit_type = take_before_first(&head, &to_chars("("));
            is_listed(&commit_type, &conventional_types())
        },
    }
}

/// The type that a message leads with: the text in front of its first `:`,
/// cut at the first `(`.
pub fn message_type(message: &str) -> (ty: String)
    ensures
        ty@ == leading_type(message@),
{
    let chars = to_chars(message);
    let head = take_before_first(&chars, &to_chars(":"));
    let ty = take_before_first(&head, &to_chars("("));
    from_chars(&ty)
}

/// No commit type of the vocabulary holds a `:` or a `(`.
proof fn lemma_types_are_plain(t: Seq<char>)
    requires
        is_commit_type(t),
    ensures
        forall|k: int| 0 <= k < t.len() ==> t[k] != ':' && t[k] != '(',
{
    reveal_strlit("feat");
    reveal_strlit("fix");
    reveal_strlit("docs");
    reveal_strlit("style");
    reveal_strlit("refactor");
    reveal_strlit("perf");
    reveal_strlit("test");
    reveal_strlit("build");
    reveal_strlit("ci");
    reveal_strlit("chore");
    reveal_strlit("revert");
    let n = choose|n: int| 0 <= n < commit_types().len() && commit_types()[n] == t;
    assert(0 <= n < 11);
}

/// A pattern of one character occurs where that character stands.
proof fn lemma_occurs_char(s: Seq<char>, pat: Seq<char>, c: char, j: int)
    requires
        pat == seq![c],
    ensures
        occurs_at(s, pat, j) <==> (0 <= j < s.len() && s[j] == c),
{
    if 0 <= j < s.len() {
        assert(s.subrange(j, j + 1)[0] == s[j]);
        if s[j] == c {
            assert(s.subrange(j, j + 1) =~= pat);
        }
    }
}

/// The type that a conventional message leads with is the type that makes
/// it conventional: cutting at the first `:` gives the same type as cutting
/// at the first `": "`, and that type belongs to the vocabulary.
pub proof fn law_conventional_message_leads_with_its_type(message: Seq<char>)
    requires
        is_conventional(message),
    ensures
        leading_type(message) == type_token(before_first(message, ": "@)),
        is_commit_type(leading_type(message)),
{
    reveal_strlit(": ");
    reveal_strlit(":");
    reveal_strlit("(");
    let colon = ":"@;
    let paren = "("@;
    assert(colon =~= seq![':']);
    assert(paren =~= seq!['(']);
    let w = choose|w: int| occurs_at(message, ": "@, w);
    lemma_leftmost_exists(message, ": "@, w);
    let i = first_occurrence(message, ": "@);
    let head = message.take(i);
    let ty = type_token(head);
    lemma_types_are_plain(ty);
    assert(message.subrange(i, i + 2)[0] == message[i]);
    assert(message[i] == ':');
    lemma_occurs_char(message, colon, ':', i);
    lemma_leftmost_exists(message, colon, i);
    let q = first_occurrence(message, colon);
    lemma_occurs_char(message, colon, ':', q);
    let front = message.take(q);
    assert(before_first(message, colon) == front);
    if contains(head, paren) {
        let v = choose|v: int| occurs_at(head, paren, v);
        lemma_leftmost_exists(head, paren, v);
        let p = first_occurrence(head, paren);
        lemma_occurs_char(head, paren, '(', p);
        assert(ty == head.take(p));
        assert forall|k: int| 0 <= k < p implies message[k] != ':' && message[k] != '(' by {
            assert(ty[k] == message[k]);
        }
        assert(p < q);
        lemma_occurs_char(front, paren, '(', p);
        assert forall|j: int| 0 <= j < p implies !occurs_at(front, paren, j) by {
            lemma_occurs_char(front, paren, '(', j);
        }
        lemma_first_occurrence(front, paren, p);
        assert(front.take(p) =~= head.take(p));
    } else {
        assert(ty == head);
        assert forall|k: int| 0 <= k < i implies message[k] != ':' by {
            assert(head[k] == message[k]);
        }
        assert(q == i);
        assert forall|j: int| !occurs_at(front, paren, j) by {
            lemma_occurs_char(front, paren, '(', j);
            lemma_occurs_char(head, paren, '(', j);
        }
    }
}

} // verus!
