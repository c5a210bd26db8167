//! From the token stream to the capability-string set.
//!
//! Walking the tags with a stack of open elements, every interface element
//! with a usable (present, non-empty) `name` attribute contributes its name,
//! and every method element with a usable name that is a direct child of
//! such an interface contributes the composite entry
//! `"<interface>;<method>"`.  Elements without a usable name are skipped,
//! never an error; a close tag that matches no open element, or an element
//! left open at the end of the document, is a structural error.

use vstd::prelude::*;

use crate::bytestr::{clone_bytes, concat_bytes, contains_bytes, views};
use crate::constants::{spec_tag_interface, spec_tag_method, tag_interface, tag_method};
use crate::doctype::{spec_strip_doctype, strip_doctype};
use crate::error::Error;
use crate::tokenizer::{spec_tokenize, token_views, tokenize, SpecToken, Token, TokenKind};

verus! {

/// One open element: its name, and the interface name it carries if it is an
/// interface element with a usable name.
pub struct Frame {
    pub elem: Vec<u8>,
    pub iface: Option<Vec<u8>>,
}

/// The mathematical image of a `Frame`.
#[verifier::ext_equal]
pub struct SpecFrame {
    pub elem: Seq<u8>,
    pub iface: Option<Seq<u8>>,
}

impl View for Frame {
    type V = SpecFrame;

    open spec fn view(&self) -> SpecFrame {
        SpecFrame {
            elem: self.elem@,
            iface: match self.iface {
                Option::Some(v) => Option::Some(v@),
                Option::None => Option::None,
            },
        }
    }
}

/// The views of a stack of frames.
pub open spec fn frame_views(fs: Seq<Frame>) -> Seq<SpecFrame> {
    fs.map_values(|f: Frame| f@)
}

/// Set-like insertion: an entry already present is not repeated.
pub open spec fn insert_entry(entries: Seq<Seq<u8>>, e: Seq<u8>) -> Seq<Seq<u8>> {
    if entries.contains(e) {
        entries
    } else {
        entries.push(e)
    }
}

/// The composite capability entry `"<interface>;<method>"`.
pub open spec fn method_entry(iface: Seq<u8>, method: Seq<u8>) -> Seq<u8> {
    iface + seq![59u8] + method
}

/// The interface name carried by the innermost open element, if any.
pub open spec fn top_iface(stack: Seq<SpecFrame>) -> Option<Seq<u8>> {
    if stack.len() > 0 {
        stack.last().iface
    } else {
        Option::None
    }
}

/// An interface tag with a usable (present, non-empty) name.
pub open spec fn is_interface_token(t: SpecToken) -> bool {
    &&& (t.kind == TokenKind::Open || t.kind == TokenKind::SelfClose)
    &&& t.name == spec_tag_interface()
    &&& t.name_attr is Some
    &&& t.name_attr->0.len() > 0
}

/// A method tag with a usable (present, non-empty) name.
pub open spec fn is_method_token(t: SpecToken) -> bool {
    &&& (t.kind == TokenKind::Open || t.kind == TokenKind::SelfClose)
    &&& t.name == spec_tag_method()
    &&& t.name_attr is Some
    &&& t.name_attr->0.len() > 0
}

/// One step of the walk: what a single tag does to the stack of open
/// elements and the entry set.
pub open spec fn collect_step(
    stack: Seq<SpecFrame>,
    entries: Seq<Seq<u8>>,
    t: SpecToken,
) -> Option<(Seq<SpecFrame>, Seq<Seq<u8>>)> {
    if t.kind == TokenKind::Close {
        if stack.len() == 0 {
            Option::None
        } else if stack.last().elem != t.name {
            Option::None
        } else {
            Option::Some((stack.drop_last(), entries))
        }
    } else {
        let en1 = if is_interface_token(t) {
            insert_entry(entries, t.name_attr->0)
        } else if is_method_token(t) && top_iface(stack) is Some {
            insert_entry(entries, method_entry(top_iface(stack)->0, t.name_attr->0))
        } else {
            entries
        };
        let st1 = if t.kind == TokenKind::Open {
            let f = if is_interface_token(t) {
                SpecFrame { elem: t.name, iface: Option::Some(t.name_attr->0) }
            } else {
                SpecFrame { elem: t.name, iface: Option::None }
            };
            stack.push(f)
        } else {
            stack
        };
        Option::Some((st1, en1))
    }
}

/// The walk over a whole token sequence, from a given state.
pub open spec fn spec_collect(
    ts: Seq<SpecToken>,
    stack: Seq<SpecFrame>,
    entries: Seq<Seq<u8>>,
) -> Option<Seq<Seq<u8>>>
    decreases ts.len(),
{
    if ts.len() == 0 {
        if stack.len() == 0 {
            Option::Some(entries)
        } else {
            Option::None
        }
    } else {
        match collect_step(stack, entries, ts[0]) {
            Option::None => Option::None,
            Option::Some(p) => spec_collect(ts.skip(1), p.0, p.1),
        }
    }
}

/// The capability-string set of a whole document: preamble stripping, tag
/// scanning, then the walk.
pub open spec fn spec_introspect(xml: Seq<u8>) -> Option<Seq<Seq<u8>>> {
    match spec_tokenize(spec_strip_doctype(xml, false)) {
        Option::None => Option::None,
        Option::Some(ts) => spec_collect(ts, Seq::empty(), Seq::empty()),
    }
}

/// Insertion keeps what was there and makes the new entry a member.
pub proof fn lemma_insert_contains(entries: Seq<Seq<u8>>, e: Seq<u8>)
    ensures
        insert_entry(entries, e).contains(e),
        forall|x: Seq<u8>| entries.contains(x) ==> insert_entry(entries, e).contains(x),
{
    if !entries.contains(e) {
        assert(entries.push(e)[entries.len() as int] == e);
        assert(forall|x: Seq<u8>| entries.contains(x) ==> entries.push(e).contains(x)) by {
            assert forall|x: Seq<u8>| entries.contains(x) implies entries.push(e).contains(
                x,
            ) by {
                let i = choose|i: int| 0 <= i < entries.len() && entries[i] == x;
                assert(entries.push(e)[i] == x);
            }
        }
    }
}

/// The walk never forgets an entry: whatever stands in the entry set when
/// some suffix of the tokens is reached still stands in the final set.
pub proof fn lemma_collect_monotonic(
    ts: Seq<SpecToken>,
    stack: Seq<SpecFrame>,
    entries: Seq<Seq<u8>>,
)
    requires
        spec_collect(ts, stack, entries) is Some,
    ensures
        forall|x: Seq<u8>|
            entries.contains(x) ==> spec_collect(ts, stack, entries)->0.contains(x),
    decreases ts.len(),
{
    if ts.len() > 0 {
        let p = collect_step(stack, entries, ts[0])->0;
        lemma_collect_monotonic(ts.skip(1), p.0, p.1);
        if ts[0].kind != TokenKind::Close {
            if is_interface_token(ts[0]) {
                lemma_insert_contains(entries, ts[0].name_attr->0);
            } else if is_method_token(ts[0]) && top_iface(stack) is Some {
                lemma_insert_contains(
                    entries,
                    method_entry(top_iface(stack)->0, ts[0].name_attr->0),
                );
            }
        }
    }
}

/// The state of the walk after its first `k` steps.
pub open spec fn collect_state(
    ts: Seq<SpecToken>,
    stack: Seq<SpecFrame>,
    entries: Seq<Seq<u8>>,
    k: int,
) -> Option<(Seq<SpecFrame>, Seq<Seq<u8>>)>
    decreases k,
{
    if k <= 0 {
        Option::Some((stack, entries))
    } else {
        match collect_step(stack, entries, ts[0]) {
            Option::None => Option::None,
            Option::Some(p) => collect_state(ts.skip(1), p.0, p.1, k - 1),
        }
    }
}

/// The walk is the walk up to `k`, continued from the state reached there.
pub proof fn lemma_collect_state(
    ts: Seq<SpecToken>,
    stack: Seq<SpecFrame>,
    entries: Seq<Seq<u8>>,
    k: int,
)
    requires
        0 <= k <= ts.len(),
    ensures
        spec_collect(ts, stack, entries) == match collect_state(ts, stack, entries, k) {
            Option::None => Option::None::<Seq<Seq<u8>>>,
            Option::Some(p) => spec_collect(ts.skip(k), p.0, p.1),
        },
    decreases k,
{
    if k > 0 {
        match collect_step(stack, entries, ts[0]) {
            Option::None => {
            },
            Option::Some(p) => {
                lemma_collect_state(ts.skip(1), p.0, p.1, k - 1);
                assert(ts.skip(1).skip(k - 1) =~= ts.skip(k));
            },
        }
    } else {
        assert(ts.skip(0) =~= ts);
    }
}

proof fn lemma_interface_recorded_from(
    ts: Seq<SpecToken>,
    stack: Seq<SpecFrame>,
    entries: Seq<Seq<u8>>,
    k: int,
)
    requires
        spec_collect(ts, stack, entries) is Some,
        0 <= k < ts.len(),
        is_interface_token(ts[k]),
    ensures
        spec_collect(ts, stack, entries)->0.contains(ts[k].name_attr->0),
    decreases k,
{
    let p = collect_step(stack, entries, ts[0])->0;
    if k == 0 {
        lemma_insert_contains(entries, ts[0].name_attr->0);
        lemma_collect_monotonic(ts.skip(1), p.0, p.1);
    } else {
        assert(ts.skip(1)[k - 1] == ts[k]);
        lemma_interface_recorded_from(ts.skip(1), p.0, p.1, k - 1);
    }
}

/// Every interface tag with a usable name leaves that name in the derived
/// capability set, wherever in the document it stands.
pub proof fn lemma_interface_recorded(ts: Seq<SpecToken>, k: int)
    requires
        spec_collect(ts, Seq::empty(), Seq::empty()) is Some,
        0 <= k < ts.len(),
        is_interface_token(ts[k]),
    ensures
        spec_collect(ts, Seq::empty(), Seq::empty())->0.contains(ts[k].name_attr->0),
{
    lemma_interface_recorded_from(ts, Seq::empty(), Seq::empty(), k);
}

/// Every method tag consumed while an interface named `i` is the innermost
/// open element leaves the composite entry `"i;method"` in the derived
/// capability set.  Together with `lemma_interface_recorded` this is the
/// guarantee that a document containing interface `i` with method `m` yields
/// both `"i"` and `"i;m"`.
pub proof fn lemma_method_recorded(
    ts: Seq<SpecToken>,
    k: int,
    st_k: Seq<SpecFrame>,
    en_k: Seq<Seq<u8>>,
)
    requires
        spec_collect(ts, Seq::empty(), Seq::empty()) is Some,
        0 <= k < ts.len(),
        collect_state(ts, Seq::empty(), Seq::empty(), k) == Option::Some((st_k, en_k)),
        is_method_token(ts[k]),
        top_iface(st_k) is Some,
    ensures
        spec_collect(ts, Seq::empty(), Seq::empty())->0.contains(
            method_entry(top_iface(st_k)->0, ts[k].name_attr->0),
        ),
{
    lemma_collect_state(ts, Seq::empty(), Seq::empty(), k);
    let suffix = ts.skip(k);
    assert(suffix[0] == ts[k]);
    assert(!is_interface_token(ts[k])) by {
        assert(spec_tag_method()[0] != spec_tag_interface()[0]);
    }
    let p = collect_step(st_k, en_k, suffix[0])->0;
    lemma_insert_contains(en_k, method_entry(top_iface(st_k)->0, ts[k].name_attr->0));
    lemma_collect_monotonic(suffix.skip(1), p.0, p.1);
}

/// At the document level: every interface tag with a usable name in a
/// successfully introspected document leaves that interface's name in the
/// capability set.
pub proof fn lemma_document_interface_recorded(xml: Seq<u8>, ts: Seq<SpecToken>, k: int)
    requires
        spec_tokenize(spec_strip_doctype(xml, false)) == Option::Some(ts),
        spec_introspect(xml) is Some,
        0 <= k < ts.len(),
        is_interface_token(ts[k]),
    ensures
        spec_introspect(xml)->0.contains(ts[k].name_attr->0),
{
    lemma_interface_recorded(ts, k);
}

/// At the document level: every method tag consumed while an interface named
/// `i` is the innermost open element leaves `"i;method"` in the capability
/// set of a successfully introspected document.
pub proof fn lemma_document_method_recorded(
    xml: Seq<u8>,
    ts: Seq<SpecToken>,
    k: int,
    st_k: Seq<SpecFrame>,
    en_k: Seq<Seq<u8>>,
)
    requires
        spec_tokenize(spec_strip_doctype(xml, false)) == Option::Some(ts),
        spec_introspect(xml) is Some,
        0 <= k < ts.len(),
        collect_state(ts, Seq::empty(), Seq::empty(), k) == Option::Some((st_k, en_k)),
        is_method_token(ts[k]),
        top_iface(st_k) is Some,
    ensures
        spec_introspect(xml)->0.contains(
            method_entry(top_iface(st_k)->0, ts[k].name_attr->0),
        ),
{
    lemma_method_recorded(ts, k, st_k, en_k);
}

/// A document-type preamble, even one spanning several lines, changes
/// nothing: the remainder is tokenized, and its capability set derived,
/// exactly as if the preamble had never been there.  In particular a
/// structurally parseable remainder stays parseable.
pub proof fn lemma_introspect_ignores_preamble(pre: Seq<u8>, rest: Seq<u8>)
    requires
        crate::doctype::is_doctype_preamble(pre),
    ensures
        spec_introspect(pre + rest) == spec_introspect(rest),
        spec_introspect(rest) is Some ==> spec_introspect(pre + rest) is Some,
{
    crate::doctype::lemma_strip_doctype_preamble(pre, rest);
}

/// Walks the token stream, exactly as `spec_collect` does from the empty
/// state.
pub fn collect_entries(toks: &Vec<Token>) -> (r: Option<Vec<Vec<u8>>>)
    ensures
        match r {
            Option::Some(es) => spec_collect(token_views(toks@), Seq::empty(), Seq::empty())
                == Option::Some(views(es@)),
            Option::None => spec_collect(token_views(toks@), Seq::empty(), Seq::empty()) is None,
        },
{
    let ghost tvs = token_views(toks@);
    let mut stack: Vec<Frame> = Vec::new();
    let mut entries: Vec<Vec<u8>> = Vec::new();
    let mut k: usize = 0;
    proof {
        assert(tvs.skip(0) =~= tvs);
        assert(frame_views(stack@) =~= Seq::<SpecFrame>::empty());
        assert(views(entries@) =~= Seq::<Seq<u8>>::empty());
    }
    while k < toks.len()
        invariant
            k <= toks@.len(),
            tvs == token_views(toks@),
            spec_collect(tvs, Seq::empty(), Seq::empty()) == spec_collect(
                tvs.skip(k as int),
                frame_views(stack@),
                views(entries@),
            ),
        decreases toks@.len() - k,
    {
        let ghost st0 = frame_views(stack@);
        let ghost en0 = views(entries@);
        let ghost t = tvs[k as int];
        proof {
            assert(tvs.skip(k as int)[0] == t);
            assert(tvs.skip(k as int).skip(1) =~= tvs.skip(k as int + 1));
        }
        let tok = &toks[k];
        let is_close = match tok.kind {
            TokenKind::Close => true,
            _ => false,
        };
        if is_close {
            if stack.len() == 0 {
                return Option::None;
            }
            let top = &stack[stack.len() - 1];
            if !crate::bytestr::bytes_eq(top.elem.as_slice(), tok.name.as_slice()) {
                return Option::None;
            }
            let _ = stack.pop();
            proof {
                assert(frame_views(stack@) =~= st0.drop_last());
            }
        } else {
            // Does this tag record an entry?
            let is_iface = crate::bytestr::bytes_eq(
                tok.name.as_slice(),
                tag_interface().as_slice(),
            );
            let is_method = crate::bytestr::bytes_eq(tok.name.as_slice(), tag_method().as_slice());
            let mut new_iface: Option<Vec<u8>> = Option::None;
            match &tok.name_attr {
                Option::Some(attr) => {
                    if is_iface && attr.len() > 0 {
                        // An interface with a usable name: record it.
                        proof {
                            assert(is_interface_token(t));
                        }
                        if !contains_bytes(&entries, attr.as_slice()) {
                            entries.push(clone_bytes(attr));
                            proof {
                                assert(views(entries@) =~= en0.push(t.name_attr->0));
                            }
                        }
                        new_iface = Option::Some(clone_bytes(attr));
                    } else if is_method && attr.len() > 0 && stack.len() > 0 {
                        // A method directly inside a named interface: record
                        // the composite entry.
                        proof {
                            assert(is_method_token(t));
                            assert(!is_interface_token(t)) by {
                                assert(spec_tag_method() != spec_tag_interface());
                            }
                        }
                        let top = &stack[stack.len() - 1];
                        match &top.iface {
                            Option::Some(iface) => {
                                proof {
                                    assert(top_iface(st0) == Option::Some(iface@));
                                }
                                let mut e = concat_bytes(iface.as_slice(), &[59u8]);
                                proof {
                                    assert((&[59u8])@ =~= seq![59u8]);
                                }
                                e = concat_bytes(e.as_slice(), attr.as_slice());
                                proof {
                                    assert(e@ == method_entry(iface@, t.name_attr->0));
                                }
                                if !contains_bytes(&entries, e.as_slice()) {
                                    entries.push(e);
                                    proof {
                                        assert(views(entries@) =~= en0.push(
                                            method_entry(top_iface(st0)->0, t.name_attr->0),
                                        ));
                                    }
                                }
                            },
                            Option::None => {
                                proof {
                                    assert(top_iface(st0) is None);
                                }
                            },
                        }
                    }
                },
                Option::None => {
                },
            }
            let is_open = match tok.kind {
                TokenKind::Open => true,
                _ => false,
            };
            if is_open {
                let f = Frame { elem: clone_bytes(&tok.name), iface: new_iface };
                proof {
                    if is_interface_token(t) {
                        assert(f@ =~= SpecFrame {
                            elem: t.name,
                            iface: Option::Some(t.name_attr->0),
                        });
                    } else {
                        assert(f@ =~= SpecFrame { elem: t.name, iface: Option::None });
                    }
                }
                stack.push(f);
                proof {
                    assert(frame_views(stack@) =~= st0.push(f@));
                }
            }
            proof {
                let step = collect_step(st0, en0, t);
                assert(step is Some);
                let p = step->0;
                assert(frame_views(stack@) =~= p.0);
                assert(views(entries@) =~= p.1);
            }
        }
        k = k + 1;
    }
    proof {
        assert(tvs.skip(k as int).len() == 0);
    }
    if stack.len() == 0 {
        Option::Some(entries)
    } else {
        Option::None
    }
}

/// Strips the preamble, scans the tags and walks them: the capability-string
/// set of `xml`, or a parse error when the document is not well-formed.
pub fn parse_introspection(xml: &[u8]) -> (r: Result<Vec<Vec<u8>>, Error>)
    ensures
        match r {
            Result::Ok(es) => spec_introspect(xml@) == Option::Some(views(es@)),
            Result::Err(e) => spec_introspect(xml@) is None && e == Error::IntrospectionParse,
        },
{
    let stripped = strip_doctype(xml);
    match tokenize(stripped.as_slice()) {
        Option::None => Result::Err(Error::IntrospectionParse),
        Option::Some(toks) => match collect_entries(&toks) {
            Option::None => Result::Err(Error::IntrospectionParse),
            Option::Some(es) => Result::Ok(es),
        },
    }
}

} // verus!
