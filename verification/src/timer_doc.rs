//! The persisted timer-state document.
//!
//! The timer record lives on disk as a small JSON document,
//!
//! ```text
//! {
//!   "enabled": true,
//!   "last_fetch": null
//! }
//! ```
//!
//! fully rewritten on every save. `emit_timer_doc` produces exactly this
//! canonical text and `parse_timer_doc` reads it back; parsing what was
//! emitted returns the original record, so a record written by one
//! process (the owning service, or a client falling back to a direct
//! file write) reads back identically in the next. A text that does not
//! match the canonical layout parses as `None`, and loading falls back
//! to the default record.
//!
//! The acceptance is deliberately byte-exact: a hand edit that keeps
//! the layout (flipping the flag, changing the timestamp) survives,
//! while one that reorders the keys or reformats the whitespace counts
//! as a damaged document and resets the record to its default.

use vstd::prelude::*;

use crate::text::push_char;
use crate::text::str_eq;
use crate::timer::stamp_char_ok;
use crate::timer::stamp_wf;
use crate::timer::TimerState;

verus! {

pub open spec fn doc_prefix() -> Seq<char> {
    "{\n  \"enabled\": "@
}

pub open spec fn doc_mid() -> Seq<char> {
    ",\n  \"last_fetch\": "@
}

pub open spec fn doc_suffix() -> Seq<char> {
    "\n}"@
}

pub open spec fn bool_chars(b: bool) -> Seq<char> {
    if b {
        "true"@
    } else {
        "false"@
    }
}

pub open spec fn null_chars() -> Seq<char> {
    "null"@
}

pub open spec fn value_chars(lf: Option<Seq<char>>) -> Seq<char> {
    match lf {
        None => null_chars(),
        Some(s) => seq!['"'] + s + seq!['"'],
    }
}

/// The canonical document text for a timer record.
pub open spec fn timer_doc(enabled: bool, lf: Option<Seq<char>>) -> Seq<char> {
    doc_prefix() + bool_chars(enabled) + doc_mid() + value_chars(lf) + doc_suffix()
}

/// The last-fetch field of a record, as a sequence view.
pub open spec fn lf_view(st: TimerState) -> Option<Seq<char>> {
    match st.last_fetch {
        Some(s) => Some(s@),
        None => None,
    }
}

/// Index of the value after `"last_fetch": `, fixed by the layout.
pub open spec fn value_pos(enabled: bool) -> int {
    if enabled {
        37
    } else {
        38
    }
}

/// Shape facts about the canonical text, used by the parser's proofs.
proof fn lemma_doc_shape(b: bool, lf: Option<Seq<char>>)
    ensures
        doc_prefix().len() == 15,
        doc_mid().len() == 18,
        doc_suffix().len() == 2,
        bool_chars(b).len() == (if b {
            4int
        } else {
            5int
        }),
        timer_doc(b, lf).len() == value_pos(b) + value_chars(lf).len() + 2,
        timer_doc(b, lf)[15] == (if b {
            't'
        } else {
            'f'
        }),
        lf is None ==> timer_doc(b, lf).len() == value_pos(b) + 6 && timer_doc(b, lf)[value_pos(b)]
            == 'n',
        lf matches Some(s) ==> timer_doc(b, lf).len() == value_pos(b) + s.len() + 4 && timer_doc(
            b,
            lf,
        )[value_pos(b)] == '"' && forall|i: int|
            0 <= i < s.len() ==> timer_doc(b, lf)[value_pos(b) + 1 + i] == s[i],
{
    reveal_strlit("{\n  \"enabled\": ");
    reveal_strlit(",\n  \"last_fetch\": ");
    reveal_strlit("\n}");
    reveal_strlit("true");
    reveal_strlit("false");
    reveal_strlit("null");
    let d = timer_doc(b, lf);
    let vp = value_pos(b);
    assert(d[15] == (if b {
        't'
    } else {
        'f'
    }));
    if let Some(s) = lf {
        assert forall|i: int| 0 <= i < s.len() implies d[vp + 1 + i] == s[i] by {
            assert(value_chars(lf)[1 + i] == s[i]);
        }
    }
}

/// Render a timer record as the canonical document text.
pub fn emit_timer_doc(st: &TimerState) -> (r: String)
    requires
        st.wf(),
    ensures
        r@ == timer_doc(st.enabled, lf_view(*st)),
{
    let mut out = String::from_str("{\n  \"enabled\": ");
    if st.enabled {
        out.append("true");
    } else {
        out.append("false");
    }
    out.append(",\n  \"last_fetch\": ");
    match &st.last_fetch {
        None => {
            out.append("null");
        },
        Some(s) => {
            push_char(&mut out, '"');
            out.append(s.as_str());
            push_char(&mut out, '"');
        },
    }
    out.append("\n}");
    proof {
        assert(out@ =~= timer_doc(st.enabled, lf_view(*st)));
    }
    out
}

/// Read a canonical document back into a timer record.
///
/// Exactly the texts that `emit_timer_doc` writes are accepted: parsing
/// any emitted document returns the emitted record, and whenever `Some`
/// comes back the input was that record's canonical text.
pub fn parse_timer_doc(s: &str) -> (r: Option<TimerState>)
    ensures
        match r {
            Some(v) => v.wf() && s@ == timer_doc(v.enabled, lf_view(v)),
            None => true,
        },
        forall|b: bool|
            s@ == timer_doc(b, None) ==> (r matches Some(v) && v.enabled == b && v.last_fetch
                is None),
        forall|b: bool, lf: Seq<char>|
            stamp_wf(lf) && s@ == timer_doc(b, Some(lf)) ==> (r matches Some(v) && v.enabled == b
                && lf_view(v) == Some(lf)),
{
    let n = s.unicode_len();
    if n <= 38 {
        proof {
            assert forall|b: bool| s@ != timer_doc(b, None) by {
                lemma_doc_shape(b, Option::<Seq<char>>::None);
            }
            assert forall|b: bool, lf: Seq<char>| s@ != timer_doc(b, Some(lf)) by {
                lemma_doc_shape(b, Some(lf));
            }
        }
        return None;
    }
    let cb = s.get_char(15);
    let enabled: bool;
    let vp: usize;
    if cb == 't' {
        enabled = true;
        vp = 37;
    } else if cb == 'f' {
        enabled = false;
        vp = 38;
    } else {
        proof {
            assert forall|b: bool| s@ != timer_doc(b, None) by {
                lemma_doc_shape(b, Option::<Seq<char>>::None);
            }
            assert forall|b: bool, lf: Seq<char>| s@ != timer_doc(b, Some(lf)) by {
                lemma_doc_shape(b, Some(lf));
            }
        }
        return None;
    }
    proof {
        lemma_doc_shape(enabled, Option::<Seq<char>>::None);
        assert forall|b: bool, lf: Option<Seq<char>>| s@ == timer_doc(b, lf) implies b == enabled
            && value_pos(b) == vp by {
            lemma_doc_shape(b, lf);
        }
    }
    let cv = s.get_char(vp);
    let candidate: TimerState;
    if cv == 'n' {
        candidate = TimerState { enabled, last_fetch: None };
    } else if cv == '"' {
        if n < vp + 4 {
            proof {
                assert forall|b: bool, lf: Seq<char>| s@ != timer_doc(b, Some(lf)) by {
                    lemma_doc_shape(b, Some(lf));
                }
                assert forall|b: bool| s@ != timer_doc(b, None) by {
                    lemma_doc_shape(b, Option::<Seq<char>>::None);
                }
            }
            return None;
        }
        let end = n - 3;
        let mut stamp = String::new();
        let mut i: usize = vp + 1;
        proof {
            assert(stamp@ =~= s@.subrange(vp as int + 1, vp as int + 1));
        }
        #[verifier::loop_isolation(false)]
        while i < end
            invariant
                n == s@.len(),
                vp + 4 <= n,
                end == n - 3,
                vp + 1 <= i <= end,
                stamp@ == s@.subrange(vp as int + 1, i as int),
                stamp_wf(stamp@),
            decreases end - i,
        {
            let c = s.get_char(i);
            if c == '"' || c == '\\' || (c as u32) < 0x20 {
                proof {
                    assert forall|b: bool, lf: Seq<char>|
                        !(stamp_wf(lf) && s@ == timer_doc(b, Some(lf))) by {
                        lemma_doc_shape(b, Some(lf));
                        if stamp_wf(lf) && s@ == timer_doc(b, Some(lf)) {
                            let k = i - value_pos(b) - 1;
                            assert(lf.len() == s@.len() - value_pos(b) - 4);
                            assert(0 <= k < lf.len());
                            assert(timer_doc(b, Some(lf))[value_pos(b) + 1 + k] == lf[k]);
                            assert(i as int == value_pos(b) + 1 + k);
                            assert(s@[i as int] == lf[k]);
                            assert(stamp_char_ok(lf[k]));
                        }
                    }
                    assert forall|b: bool| s@ != timer_doc(b, None) by {
                        lemma_doc_shape(b, Option::<Seq<char>>::None);
                    }
                }
                return None;
            }
            push_char(&mut stamp, c);
            proof {
                assert(stamp@ =~= s@.subrange(vp as int + 1, i as int + 1));
            }
            i += 1;
        }
        candidate = TimerState { enabled, last_fetch: Some(stamp) };
    } else {
        proof {
            assert forall|b: bool| s@ != timer_doc(b, None) by {
                lemma_doc_shape(b, Option::<Seq<char>>::None);
            }
            assert forall|b: bool, lf: Seq<char>| s@ != timer_doc(b, Some(lf)) by {
                lemma_doc_shape(b, Some(lf));
            }
        }
        return None;
    }
    proof {
        assert(candidate.enabled == enabled);
        assert(candidate.last_fetch is None ==> cv == 'n');
        assert(candidate.last_fetch is Some ==> cv == '"');
    }
    let emitted = emit_timer_doc(&candidate);
    if str_eq(s, emitted.as_str()) {
        proof {
            lemma_doc_shape(candidate.enabled, lf_view(candidate));
            assert forall|b: bool| s@ == timer_doc(b, None) implies candidate.enabled == b
                && candidate.last_fetch is None by {
                lemma_doc_shape(b, Option::<Seq<char>>::None);
                if candidate.last_fetch is Some {
                    assert(s@[value_pos(b)] == 'n');
                }
            }
            assert forall|b: bool, lf: Seq<char>|
                stamp_wf(lf) && s@ == timer_doc(b, Some(lf)) implies candidate.enabled == b
                && lf_view(candidate) == Some(lf) by {
                lemma_doc_shape(b, Some(lf));
                if candidate.last_fetch is None {
                    assert(s@[value_pos(b)] == '"');
                } else {
                    let cs = lf_view(candidate)->Some_0;
                    assert(cs.len() == lf.len());
                    assert forall|k: int| 0 <= k < lf.len() implies cs[k] == lf[k] by {
                        assert(s@[value_pos(b) + 1 + k] == lf[k]);
                        assert(s@[value_pos(b) + 1 + k] == cs[k]);
                    }
                    assert(cs =~= lf);
                }
            }
        }
        Some(candidate)
    } else {
        proof {
            assert forall|b: bool| s@ != timer_doc(b, None) by {
                lemma_doc_shape(b, Option::<Seq<char>>::None);
                if s@ == timer_doc(b, None) {
                    assert(candidate.enabled == b);
                    assert(candidate.last_fetch is None);
                    assert(emitted@ == s@);
                }
            }
            assert forall|b: bool, lf: Seq<char>|
                !(stamp_wf(lf) && s@ == timer_doc(b, Some(lf))) by {
                lemma_doc_shape(b, Some(lf));
                if stamp_wf(lf) && s@ == timer_doc(b, Some(lf)) {
                    assert(candidate.enabled == b);
                    assert(candidate.last_fetch is Some);
                    let cs = lf_view(candidate)->Some_0;
                    assert(cs =~= lf);
                    assert(emitted@ == s@);
                }
            }
        }
        None
    }
}

/// The timer record a stored document yields: the record it is the
/// canonical text of, or a fresh default when it is damaged or missing
/// its shape — a load never fails, it falls back to the timer being
/// off with no fetch recorded.
pub fn timer_state_from_doc(text: &str) -> (r: TimerState)
    ensures
        r.wf(),
        forall|b: bool|
            text@ == timer_doc(b, None) ==> r.enabled == b && r.last_fetch is None,
        forall|b: bool, lf: Seq<char>|
            stamp_wf(lf) && text@ == timer_doc(b, Some(lf)) ==> r.enabled == b && lf_view(r)
                == Some(lf),
        (forall|b: bool, lf: Option<Seq<char>>| text@ != timer_doc(b, lf)) ==> (r.enabled == false
            && r.last_fetch is None),
{
    match parse_timer_doc(text) {
        Some(v) => {
            proof {
                assert(text@ == timer_doc(v.enabled, lf_view(v)));
            }
            v
        },
        None => TimerState::default(),
    }
}

} // verus!
