//! Tag-level scanner for the introspection document.
//!
//! The document is a flat byte string; this pass finds every markup tag,
//! classifies it as an opening, self-closing or closing element tag, and pulls
//! out the element name and the value of its `name` attribute, if one is
//! present and syntactically usable.  Text between tags, processing
//! instructions (`<?...>`) and markup declarations (`<!...>`) are ignored.
//! A tag left unclosed, a `<` inside a tag, or an element without a name is a
//! structural error.

use vstd::prelude::*;

use crate::bytestr::{copy_range, is_ws, trim_start_ws};
use crate::constants::spec_attr_name;

verus! {

/// How a tag stands in the element tree.
#[derive(Clone, Copy, Debug, PartialEq, Eq, Structural)]
pub enum TokenKind {
    Open,
    SelfClose,
    Close,
}

/// One markup tag, with its element name and optional `name` attribute value.
pub struct Token {
    pub kind: TokenKind,
    pub name: Vec<u8>,
    pub name_attr: Option<Vec<u8>>,
}

/// The mathematical image of a `Token`.
#[verifier::ext_equal]
pub struct SpecToken {
    pub kind: TokenKind,
    pub name: Seq<u8>,
    pub name_attr: Option<Seq<u8>>,
}

impl View for Token {
    type V = SpecToken;

    open spec fn view(&self) -> SpecToken {
        SpecToken {
            kind: self.kind,
            name: self.name@,
            name_attr: match self.name_attr {
                Option::Some(v) => Option::Some(v@),
                Option::None => Option::None,
            },
        }
    }
}

/// The views of a list of tokens.
pub open spec fn token_views(ts: Seq<Token>) -> Seq<SpecToken> {
    ts.map_values(|t: Token| t@)
}

/// The index of the first occurrence of `b` in `s`, or `s.len()`.
pub open spec fn pos_of(s: Seq<u8>, b: u8) -> nat
    decreases s.len(),
{
    if s.len() == 0 {
        0
    } else if s[0] == b {
        0
    } else {
        1 + pos_of(s.skip(1), b)
    }
}

/// `pos_of` is determined by the position of the first occurrence.
pub proof fn lemma_pos_of_at(s: Seq<u8>, b: u8, m: int)
    requires
        0 <= m <= s.len(),
        forall|k: int| 0 <= k < m ==> s[k] != b,
        m == s.len() || s[m] == b,
    ensures
        pos_of(s, b) == m,
    decreases s.len(),
{
    if s.len() != 0 && s[0] != b {
        assert(forall|k: int| 0 <= k < m - 1 ==> s.skip(1)[k] == s[k + 1]);
        lemma_pos_of_at(s.skip(1), b, m - 1);
    }
}

/// The index of the first `>` or `<` in `s`, or `s.len()`: where the current
/// tag ends, or where it is found malformed.
pub open spec fn tag_end(s: Seq<u8>) -> nat
    decreases s.len(),
{
    if s.len() == 0 {
        0
    } else if s[0] == 62 || s[0] == 60 {
        0
    } else {
        1 + tag_end(s.skip(1))
    }
}

pub proof fn lemma_tag_end_at(s: Seq<u8>, m: int)
    requires
        0 <= m <= s.len(),
        forall|k: int| 0 <= k < m ==> s[k] != 62 && s[k] != 60,
        m == s.len() || s[m] == 62 || s[m] == 60,
    ensures
        tag_end(s) == m,
    decreases s.len(),
{
    if s.len() != 0 && s[0] != 62 && s[0] != 60 {
        assert(forall|k: int| 0 <= k < m - 1 ==> s.skip(1)[k] == s[k + 1]);
        lemma_tag_end_at(s.skip(1), m - 1);
    }
}

/// Whether a byte may stand in an element or attribute name.
pub open spec fn is_name_byte(b: u8) -> bool {
    !is_ws(b) && b != 47 && b != 61 && b != 34 && b != 39
}

/// The length of the name prefix of `s`.
pub open spec fn name_len(s: Seq<u8>) -> nat
    decreases s.len(),
{
    if s.len() > 0 && is_name_byte(s[0]) {
        1 + name_len(s.skip(1))
    } else {
        0
    }
}

pub proof fn lemma_name_len_at(s: Seq<u8>, m: int)
    requires
        0 <= m <= s.len(),
        forall|k: int| 0 <= k < m ==> is_name_byte(s[k]),
        m == s.len() || !is_name_byte(s[m]),
    ensures
        name_len(s) == m,
    decreases s.len(),
{
    if s.len() > 0 && is_name_byte(s[0]) {
        assert(forall|k: int| 0 <= k < m - 1 ==> s.skip(1)[k] == s[k + 1]);
        lemma_name_len_at(s.skip(1), m - 1);
    }
}

proof fn lemma_trim_start_ws_len(s: Seq<u8>)
    ensures
        trim_start_ws(s).len() <= s.len(),
    decreases s.len(),
{
    if s.len() > 0 && is_ws(s[0]) {
        lemma_trim_start_ws_len(s.skip(1));
    }
}

/// The value of the first usable `name="..."` (or `name='...'`) attribute in
/// an attribute region, scanned key by key; `None` both when no `name`
/// attribute stands there and when the region's syntax breaks down before one
/// is found (the element is then treated as unnamed and skipped, never a
/// document error).
pub open spec fn spec_name_attr(s: Seq<u8>) -> Option<Seq<u8>>
    decreases s.len(),
    via spec_name_attr_decreases
{
    let t = trim_start_ws(s);
    if t.len() == 0 {
        Option::None
    } else {
        let kl = name_len(t) as int;
        if kl == 0 {
            Option::None
        } else {
            let key = t.take(kl);
            let u = trim_start_ws(t.skip(kl));
            if u.len() == 0 || u[0] != 61 {
                Option::None
            } else {
                let v = trim_start_ws(u.skip(1));
                if v.len() == 0 || (v[0] != 34 && v[0] != 39) {
                    Option::None
                } else {
                    let body = v.skip(1);
                    let vl = pos_of(body, v[0]) as int;
                    if vl >= body.len() {
                        Option::None
                    } else if key == spec_attr_name() {
                        Option::Some(body.take(vl))
                    } else {
                        spec_name_attr(body.skip(vl + 1))
                    }
                }
            }
        }
    }
}

#[via_fn]
proof fn spec_name_attr_decreases(s: Seq<u8>) {
    let t = trim_start_ws(s);
    lemma_trim_start_ws_len(s);
    if t.len() != 0 {
        let kl = name_len(t) as int;
        if kl != 0 {
            lemma_name_len_le(t);
            let u = trim_start_ws(t.skip(kl));
            lemma_trim_start_ws_len(t.skip(kl));
            if !(u.len() == 0 || u[0] != 61) {
                let v = trim_start_ws(u.skip(1));
                lemma_trim_start_ws_len(u.skip(1));
                if !(v.len() == 0 || (v[0] != 34 && v[0] != 39)) {
                    let body = v.skip(1);
                    lemma_pos_of_le(body, v[0]);
                }
            }
        }
    }
}

pub proof fn lemma_name_len_le(s: Seq<u8>)
    ensures
        name_len(s) <= s.len(),
    decreases s.len(),
{
    if s.len() > 0 && is_name_byte(s[0]) {
        lemma_name_len_le(s.skip(1));
    }
}

pub proof fn lemma_pos_of_le(s: Seq<u8>, b: u8)
    ensures
        pos_of(s, b) <= s.len(),
    decreases s.len(),
{
    if s.len() != 0 && s[0] != b {
        lemma_pos_of_le(s.skip(1), b);
    }
}

/// What one tag's content between `<` and `>` means: `None` for a malformed
/// tag (no element name), `Some(None)` for an ignorable one (`<?...>`,
/// `<!...>`), and `Some(Some(t))` for an element tag.
pub open spec fn classify(content: Seq<u8>) -> Option<Option<SpecToken>> {
    if content.len() == 0 {
        Option::None
    } else if content[0] == 63 || content[0] == 33 {
        Option::Some(Option::None)
    } else if content[0] == 47 {
        let tail = content.skip(1);
        let name = tail.take(name_len(tail) as int);
        if name.len() == 0 {
            Option::None
        } else {
            Option::Some(
                Option::Some(
                    SpecToken { kind: TokenKind::Close, name, name_attr: Option::None },
                ),
            )
        }
    } else {
        let self_closing = content.last() == 47;
        let inner = if self_closing {
            content.drop_last()
        } else {
            content
        };
        let nl = name_len(inner) as int;
        if nl == 0 {
            Option::None
        } else {
            let kind = if self_closing {
                TokenKind::SelfClose
            } else {
                TokenKind::Open
            };
            Option::Some(
                Option::Some(
                    SpecToken {
                        kind,
                        name: inner.take(nl),
                        name_attr: spec_name_attr(inner.skip(nl)),
                    },
                ),
            )
        }
    }
}

/// The token sequence of a document, or `None` if some tag is left unclosed,
/// a `<` stands inside a tag, or an element tag has no name.
pub open spec fn spec_tokenize(s: Seq<u8>) -> Option<Seq<SpecToken>>
    decreases s.len(),
{
    if s.len() == 0 {
        Option::Some(Seq::empty())
    } else if s[0] != 60 {
        spec_tokenize(s.skip(1))
    } else {
        let body = s.skip(1);
        let p = tag_end(body) as int;
        if p >= body.len() {
            Option::None
        } else if body[p] == 60 {
            Option::None
        } else {
            let rest = body.skip(p + 1);
            match classify(body.take(p)) {
                Option::None => Option::None,
                Option::Some(Option::None) => spec_tokenize(rest),
                Option::Some(Option::Some(tok)) => match spec_tokenize(rest) {
                    Option::None => Option::None,
                    Option::Some(ts) => Option::Some(seq![tok] + ts),
                },
            }
        }
    }
}

/// Executable counterpart of `trim_start_ws` from a given index.
pub fn scan_non_ws(s: &[u8], from: usize) -> (r: usize)
    requires
        from <= s@.len(),
    ensures
        from <= r <= s@.len(),
        trim_start_ws(s@.skip(from as int)) == s@.skip(r as int),
        r < s@.len() ==> !is_ws(s@[r as int]),
{
    let mut i: usize = from;
    while i < s.len()
        invariant
            from <= i <= s@.len(),
            trim_start_ws(s@.skip(from as int)) == trim_start_ws(s@.skip(i as int)),
        decreases s@.len() - i,
    {
        let b = s[i];
        if !(b == 32 || b == 9 || b == 10 || b == 11 || b == 12 || b == 13) {
            assert(trim_start_ws(s@.skip(i as int)) == s@.skip(i as int));
            return i;
        }
        assert(s@.skip(i as int).skip(1) =~= s@.skip(i + 1));
        i = i + 1;
    }
    assert(s@.skip(i as int).len() == 0);
    i
}

/// Executable counterpart of `name_len` from a given index.
pub fn scan_name(s: &[u8], from: usize) -> (r: usize)
    requires
        from <= s@.len(),
    ensures
        from <= r <= s@.len(),
        name_len(s@.skip(from as int)) == r - from,
{
    let mut i: usize = from;
    while i < s.len()
        invariant
            from <= i <= s@.len(),
            forall|k: int| from <= k < i ==> is_name_byte(s@[k]),
        decreases s@.len() - i,
    {
        let b = s[i];
        let ws = b == 32 || b == 9 || b == 10 || b == 11 || b == 12 || b == 13;
        if ws || b == 47 || b == 61 || b == 34 || b == 39 {
            proof {
                assert(forall|k: int| 0 <= k < i - from ==> s@.skip(from as int)[k] == s@[
                    from + k
                ]);
                lemma_name_len_at(s@.skip(from as int), i - from);
            }
            return i;
        }
        i = i + 1;
    }
    proof {
        assert(forall|k: int| 0 <= k < i - from ==> s@.skip(from as int)[k] == s@[from + k]);
        lemma_name_len_at(s@.skip(from as int), i - from);
    }
    i
}

/// Finds the value of the `name` attribute in the attribute region of `s`
/// starting at `from`, exactly as `spec_name_attr` reads it.
pub fn extract_name_attr(s: &[u8], from: usize) -> (r: Option<Vec<u8>>)
    requires
        from <= s@.len(),
    ensures
        match r {
            Option::Some(v) => spec_name_attr(s@.skip(from as int)) == Option::Some(v@),
            Option::None => spec_name_attr(s@.skip(from as int)) is None,
        },
{
    let mut i: usize = from;
    loop
        invariant
            from <= i <= s@.len(),
            spec_name_attr(s@.skip(from as int)) == spec_name_attr(s@.skip(i as int)),
        decreases s@.len() - i,
    {
        let ghost cur = s@.skip(i as int);
        let t0 = scan_non_ws(s, i);
        proof {
            assert(trim_start_ws(cur) == s@.skip(t0 as int));
        }
        if t0 == s.len() {
            return Option::None;
        }
        let ke = scan_name(s, t0);
        proof {
            assert(name_len(trim_start_ws(cur)) == ke - t0);
        }
        if ke == t0 {
            return Option::None;
        }
        let ghost t = s@.skip(t0 as int);
        let ghost key = t.take((ke - t0) as int);
        proof {
            assert(t.skip((ke - t0) as int) =~= s@.skip(ke as int));
        }
        let e0 = scan_non_ws(s, ke);
        if e0 == s.len() {
            return Option::None;
        }
        if s[e0] != 61 {
            return Option::None;
        }
        let ghost u = s@.skip(e0 as int);
        proof {
            assert(u.skip(1) =~= s@.skip(e0 + 1));
        }
        let v0 = scan_non_ws(s, e0 + 1);
        if v0 == s.len() {
            return Option::None;
        }
        let q = s[v0];
        if q != 34 && q != 39 {
            return Option::None;
        }
        let ghost v = s@.skip(v0 as int);
        proof {
            assert(v[0] == q);
            assert(v.skip(1) =~= s@.skip(v0 + 1));
        }
        let ghost body = s@.skip(v0 + 1);
        let mut j: usize = v0 + 1;
        while j < s.len() && s[j] != q
            invariant
                v0 + 1 <= j <= s@.len(),
                forall|k: int| v0 + 1 <= k < j ==> s@[k] != q,
            decreases s@.len() - j,
        {
            j = j + 1;
        }
        proof {
            assert(forall|k: int| 0 <= k < j - (v0 + 1) ==> body[k] == s@[v0 + 1 + k]);
            lemma_pos_of_at(body, q, j - (v0 + 1));
        }
        if j == s.len() {
            return Option::None;
        }
        let key_vec = copy_range(s, t0, ke);
        proof {
            assert(key_vec@ =~= key);
        }
        if crate::bytestr::bytes_eq(key_vec.as_slice(), crate::constants::attr_name().as_slice()) {
            let value = copy_range(s, v0 + 1, j);
            proof {
                assert(value@ =~= body.take((j - (v0 + 1)) as int));
            }
            return Option::Some(value);
        }
        proof {
            assert(body.skip((j - (v0 + 1)) as int + 1) =~= s@.skip(j + 1));
        }
        i = j + 1;
    }
}

/// `a` prepended to a token scan that may have failed.
pub open spec fn opt_concat(a: Seq<SpecToken>, o: Option<Seq<SpecToken>>) -> Option<
    Seq<SpecToken>,
> {
    match o {
        Option::Some(b) => Option::Some(a + b),
        Option::None => Option::None,
    }
}

/// Scans the whole document into tags, exactly as `spec_tokenize` reads it;
/// `None` on a structural error.
pub fn tokenize(xml: &[u8]) -> (r: Option<Vec<Token>>)
    ensures
        match r {
            Option::Some(ts) => spec_tokenize(xml@) == Option::Some(token_views(ts@)),
            Option::None => spec_tokenize(xml@) is None,
        },
{
    let mut toks: Vec<Token> = Vec::new();
    let mut i: usize = 0;
    proof {
        assert(xml@.skip(0) =~= xml@);
        assert(token_views(toks@) =~= Seq::<SpecToken>::empty());
        assert(opt_concat(token_views(toks@), spec_tokenize(xml@)) == spec_tokenize(xml@));
    }
    while i < xml.len()
        invariant
            i <= xml@.len(),
            spec_tokenize(xml@) == opt_concat(
                token_views(toks@),
                spec_tokenize(xml@.skip(i as int)),
            ),
        decreases xml@.len() - i,
    {
        let ghost s = xml@.skip(i as int);
        if xml[i] != 60 {
            proof {
                assert(s.skip(1) =~= xml@.skip(i + 1));
            }
            i = i + 1;
            continue ;
        }
        let ghost body = xml@.skip(i + 1);
        proof {
            assert(s.skip(1) =~= body);
        }
        let mut j: usize = i + 1;
        while j < xml.len() && xml[j] != 62 && xml[j] != 60
            invariant
                i + 1 <= j <= xml@.len(),
                forall|k: int| i + 1 <= k < j ==> xml@[k] != 62 && xml@[k] != 60,
            decreases xml@.len() - j,
        {
            j = j + 1;
        }
        let ghost p = (j - (i + 1)) as int;
        proof {
            assert(forall|k: int| 0 <= k < p ==> body[k] == xml@[i + 1 + k]);
            lemma_tag_end_at(body, p);
        }
        if j == xml.len() {
            return Option::None;
        }
        if xml[j] == 60 {
            return Option::None;
        }
        let content = copy_range(xml, i + 1, j);
        proof {
            assert(content@ =~= body.take(p));
        }
        let ghost rest = body.skip(p + 1);
        proof {
            assert(rest =~= xml@.skip(j + 1));
        }
        if content.len() == 0 {
            return Option::None;
        }
        let c0 = content[0];
        if c0 == 63 || c0 == 33 {
            i = j + 1;
            continue ;
        }
        let ghost old_views = token_views(toks@);
        let tok: Token;
        if c0 == 47 {
            let nl = scan_name(content.as_slice(), 1);
            proof {
                assert(name_len(content@.skip(1)) == nl - 1);
            }
            if nl == 1 {
                return Option::None;
            }
            let name = copy_range(content.as_slice(), 1, nl);
            proof {
                assert(name@ =~= content@.skip(1).take((nl - 1) as int));
            }
            tok = Token { kind: TokenKind::Close, name, name_attr: Option::None };
        } else {
            let self_closing = content[content.len() - 1] == 47;
            let inner_end = if self_closing {
                content.len() - 1
            } else {
                content.len()
            };
            let inner = copy_range(content.as_slice(), 0, inner_end);
            proof {
                if self_closing {
                    assert(inner@ =~= content@.drop_last());
                } else {
                    assert(inner@ =~= content@);
                }
            }
            let nl = scan_name(inner.as_slice(), 0);
            proof {
                assert(inner@.skip(0) =~= inner@);
            }
            if nl == 0 {
                return Option::None;
            }
            let name = copy_range(inner.as_slice(), 0, nl);
            proof {
                assert(name@ =~= inner@.take(nl as int));
            }
            let attr = extract_name_attr(inner.as_slice(), nl);
            let kind = if self_closing {
                TokenKind::SelfClose
            } else {
                TokenKind::Open
            };
            tok = Token { kind, name, name_attr: attr };
        }
        proof {
            let spec_tok = classify(content@)->0->0;
            assert(classify(content@) == Option::Some(Option::Some(tok@)));
            assert(spec_tokenize(s) == match spec_tokenize(rest) {
                Option::None => Option::None::<Seq<SpecToken>>,
                Option::Some(ts) => Option::Some(seq![tok@] + ts),
            });
        }
        toks.push(tok);
        proof {
            assert(token_views(toks@) =~= old_views + seq![tok@]);
            if spec_tokenize(rest) is Some {
                assert(old_views + (seq![tok@] + spec_tokenize(rest)->0) =~= (old_views
                    + seq![tok@]) + spec_tokenize(rest)->0);
            }
        }
        i = j + 1;
    }
    proof {
        assert(xml@.skip(i as int).len() == 0);
        assert(spec_tokenize(xml@.skip(i as int)) == Option::Some(Seq::<SpecToken>::empty()));
        assert(token_views(toks@) + Seq::<SpecToken>::empty() =~= token_views(toks@));
    }
    Option::Some(toks)
}

} // verus!
