//! Reading a command back from its text.

use vstd::prelude::*;
use crate::command::{lemma_command_no_space, parse_kind, GizmoCommand};
use crate::tags::{kind_named, lemma_name_of_text, lemma_tag_injective, tag_name};
use crate::text::{
    chars_of, lemma_no_space_no_split, lemma_occurs_whole, lemma_strip_no_space, occurs_at,
    remove_spaces, same_chars, scan_to, slice_chars, split_word, splits_word, strip_spaces,
};

verus! {

/// `t` is the text of `c`, up to whitespace: whitespace in `t` stands only
/// next to punctuation or at either end, and removing it leaves exactly the
/// text of `c`.
pub open spec fn decodes_to(t: Seq<char>, c: GizmoCommand) -> bool {
    c.wf() && !splits_word(t) && strip_spaces(t) == c.enc()
}

/// The command whose text `t` is, whitespace aside; `None` when `t` is the text
/// of no command (it is malformed, names an unknown variant, or misses or
/// mistypes a field). A text is the text of one command only: any command it
/// decodes to is of the same variant as the result, with the same field values.
pub fn decode(t: &str) -> (r: Option<GizmoCommand>)
    ensures
        r matches Some(c) ==> decodes_to(t@, c) && forall|d: GizmoCommand|
            #[trigger] decodes_to(t@, d) ==> c.same(&d),
        r is None ==> forall|c: GizmoCommand| !decodes_to(t@, c),
{
    let chars = chars_of(t);
    if split_word(&chars) {
        return None;
    }
    let s = remove_spaces(&chars);
    let n = scan_to(&s, 0, '(');
    let name = slice_chars(&s, 0, n);
    proof {
        lemma_occurs_whole(s@);
        assert forall|d: GizmoCommand| d.wf() && s@ == d.enc() implies d.kind() < 34
            && name@ == tag_name(d.kind()) by {
            lemma_name_of_text(s@, d, n as int);
        }
    }
    let k = match kind_named(&name) {
        Some(k) => k,
        None => {
            proof {
                assert forall|d: GizmoCommand| !decodes_to(t@, d) by {
                    if d.wf() && s@ == d.enc() {
                        assert(name@ == tag_name(d.kind()));
                    }
                }
            }
            return None;
        },
    };
    proof {
        assert forall|d: GizmoCommand| d.wf() && s@ == d.enc() implies d.kind() == k by {
            lemma_tag_injective(d.kind(), k as nat);
        }
    }
    let c = match parse_kind(&s, k) {
        Some(c) => c,
        None => {
            proof {
                assert forall|d: GizmoCommand| !decodes_to(t@, d) by {
                    if d.wf() && s@ == d.enc() {
                        assert(occurs_at(s@, 0, d.enc()));
                    }
                }
            }
            return None;
        },
    };
    let mut text: Vec<char> = Vec::new();
    c.write(&mut text);
    if same_chars(&text, &s) {
        proof {
            assert forall|d: GizmoCommand| #[trigger] decodes_to(t@, d) implies c.same(&d) by {
                assert(occurs_at(s@, 0, d.enc()));
            }
        }
        Some(c)
    } else {
        proof {
            assert forall|d: GizmoCommand| !decodes_to(t@, d) by {
                if d.wf() && s@ == d.enc() {
                    assert(occurs_at(s@, 0, d.enc()));
                }
            }
        }
        None
    }
}

/// Decoding the text of a well-formed command gives back that command: the
/// text decodes to it, so by the contract of [`decode`] the result is of the
/// same variant with the same field values.
pub proof fn lemma_round_trip(c: GizmoCommand)
    requires
        c.wf(),
    ensures
        decodes_to(c.enc(), c),
{
    lemma_command_no_space(c);
    lemma_strip_no_space(c.enc());
    lemma_no_space_no_split(c.enc());
}

} // verus!
