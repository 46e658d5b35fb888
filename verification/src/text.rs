//! Small operations on text that the rest of the library builds on.

use vstd::prelude::*;
use vstd::std_specs::iter::IteratorSpec;
use vstd::string::*;
use vstd::utf8::*;

verus! {

/// Whether two strings hold the same characters.
pub fn same_text(a: &str, b: &str) -> (same: bool)
    ensures
        same == (a@ == b@),
{
    let left = a.as_bytes();
    let right = b.as_bytes();
    proof {
        encode_utf8_decode_utf8(a@);
        encode_utf8_decode_utf8(b@);
    }
    if left.len() != right.len() {
        return false;
    }
    let mut i: usize = 0;
    while i < left.len()
        invariant
            i <= left.len(),
            left.len() == right.len(),
            left@ == encode_utf8(a@),
            right@ == encode_utf8(b@),
            forall|j: int| 0 <= j < i ==> left@[j] == right@[j],
        decreases left.len() - i,
    {
        if left[i] != right[i] {
            return false;
        }
        i += 1;
    }
    assert(left@ =~= right@);
    true
}

/// Whether a character is white space: the characters that Unicode gives the
/// property `White_Space`.
pub open spec fn is_space(c: char) -> bool {
    ||| '\u{9}' <= c <= '\u{d}'
    ||| c == ' '
    ||| c == '\u{85}'
    ||| c == '\u{a0}'
    ||| c == '\u{1680}'
    ||| '\u{2000}' <= c <= '\u{200a}'
    ||| c == '\u{2028}'
    ||| c == '\u{2029}'
    ||| c == '\u{202f}'
    ||| c == '\u{205f}'
    ||| c == '\u{3000}'
}

/// `text` without the white space it begins with.
pub open spec fn trim_front(text: Seq<char>) -> Seq<char>
    decreases text.len(),
{
    if text.len() > 0 && is_space(text[0]) {
        trim_front(text.drop_first())
    } else {
        text
    }
}

/// `text` without the white space it ends with.
pub open spec fn trim_back(text: Seq<char>) -> Seq<char>
    decreases text.len(),
{
    if text.len() > 0 && is_space(text.last()) {
        trim_back(text.drop_last())
    } else {
        text
    }
}

/// `text` without the white space around it.
pub open spec fn trimmed(text: Seq<char>) -> Seq<char> {
    trim_back(trim_front(text))
}

/// Where `text` begins with exactly `count` white-space characters, trimming
/// its front drops exactly those.
pub proof fn lemma_trim_front_skips(text: Seq<char>, count: int)
    requires
        0 <= count <= text.len(),
        forall|j: int| 0 <= j < count ==> is_space(#[trigger] text[j]),
        count == text.len() || !is_space(text[count]),
    ensures
        trim_front(text) == text.skip(count),
    decreases count,
{
    if count == 0 {
        assert(text.skip(0) =~= text);
    } else {
        assert(is_space(text[0]));
        let rest = text.drop_first();
        assert forall|j: int| 0 <= j < count - 1 implies is_space(#[trigger] rest[j]) by {
            assert(rest[j] == text[j + 1]);
        }
        lemma_trim_front_skips(rest, count - 1);
        assert(rest.skip(count - 1) =~= text.skip(count));
    }
}

/// Where everything in `text` from position `keep` on is white space and the
/// character before is not, trimming its back keeps exactly the first `keep`
/// characters.
pub proof fn lemma_trim_back_takes(text: Seq<char>, keep: int)
    requires
        0 <= keep <= text.len(),
        forall|j: int| keep <= j < text.len() ==> is_space(#[trigger] text[j]),
        keep == 0 || !is_space(text[keep - 1]),
    ensures
        trim_back(text) == text.take(keep),
    decreases text.len() - keep,
{
    if keep == text.len() {
        assert(text.take(keep) =~= text);
    } else {
        assert(is_space(text.last()));
        let rest = text.drop_last();
        assert forall|j: int| keep <= j < rest.len() implies is_space(#[trigger] rest[j]) by {
            assert(rest[j] == text[j]);
        }
        lemma_trim_back_takes(rest, keep);
        assert(rest.take(keep) =~= text.take(keep));
    }
}

/// Whether a character is white space.
pub fn is_whitespace(c: char) -> (space: bool)
    ensures
        space == is_space(c),
{
    ('\u{9}' <= c && c <= '\u{d}') || c == ' ' || c == '\u{85}' || c == '\u{a0}' || c == '\u{1680}'
        || ('\u{2000}' <= c && c <= '\u{200a}') || c == '\u{2028}' || c == '\u{2029}' || c
        == '\u{202f}' || c == '\u{205f}' || c == '\u{3000}'
}

/// `line` without the white space around it.
pub fn trim(line: &str) -> (text: String)
    ensures
        text@ == trimmed(line@),
{
    let total: usize = line.unicode_len();
    let mut rest = line.chars();
    proof {
        axiom_spec_iter(line);
    }
    let mut i: usize = 0;
    let mut seen: bool = false;
    let mut start: usize = 0;
    let mut end: usize = 0;
    loop
        invariant
            i <= total,
            total == line@.len(),
            IteratorSpec::remaining(&rest) == line@.skip(i as int),
            !seen ==> forall|j: int| 0 <= j < i ==> is_space(#[trigger] line@[j]),
            seen ==> start < end <= i,
            seen ==> forall|j: int| 0 <= j < start ==> is_space(#[trigger] line@[j]),
            seen ==> !is_space(line@[start as int]),
            seen ==> !is_space(line@[end - 1]),
            seen ==> forall|j: int| end <= j < i ==> is_space(#[trigger] line@[j]),
        ensures
            i == total,
        decreases total - i,
    {
        let ghost before = rest;
        let next = rest.next();
        proof {
            next_postcondition(&before, &rest, next);
        }
        match next {
            Some(c) => {
                assert(line@.skip(i as int).drop_first() =~= line@.skip(i as int + 1));
                assert(c == line@[i as int]);
                if !is_whitespace(c) {
                    if !seen {
                        start = i;
                        seen = true;
                    }
                    end = i + 1;
                }
                i += 1;
            },
            None => {
                break ;
            },
        }
    }
    if seen {
        let kept = line.substring_char(start, end);
        proof {
            let front = line@.skip(start as int);
            lemma_trim_front_skips(line@, start as int);
            assert forall|j: int| end - start <= j < front.len() implies is_space(
                #[trigger] front[j],
            ) by {
                assert(front[j] == line@[start + j]);
            }
            assert(front[end - start - 1] == line@[end - 1]);
            lemma_trim_back_takes(front, end - start);
            assert(front.take(end - start) =~= line@.subrange(start as int, end as int));
        }
        kept.to_owned()
    } else {
        proof {
            lemma_trim_front_skips(line@, total as int);
            assert(line@.skip(total as int) =~= Seq::<char>::empty());
        }
        String::new()
    }
}

} // verus!
