//! Fully-qualified domain names and relativization against a zone origin.
//!
//! A domain name is kept in its textual, fully-qualified form: non-empty,
//! ending in a dot, with no empty label (no leading dot and no two dots in a
//! row), e.g. `"www.example.org."`. Rendering a record name relative to a
//! zone origin strips the origin as a domain suffix where possible: the
//! origin itself renders as the token `@`, a strict subdomain renders as the
//! leading remainder, and a name not under the origin renders unchanged.

use vstd::prelude::*;

verus! {

/// The characters form a fully-qualified domain name: non-empty, dot
/// terminated, and free of empty labels.
pub open spec fn is_fqdn(s: Seq<char>) -> bool {
    &&& s.len() >= 1
    &&& s[s.len() - 1] == '.'
    &&& s[0] != '.'
    &&& forall|i: int| 1 <= i < s.len() ==> !((#[trigger] s[i]) == '.' && s[i - 1] == '.')
}

/// `o` is a strict domain suffix of `f`: `f` ends in `o` and the character
/// just before the suffix is the dot closing `f`'s remaining labels.
pub open spec fn is_origin_suffix(f: Seq<char>, o: Seq<char>) -> bool {
    &&& f.len() > o.len()
    &&& f.subrange(f.len() - o.len(), f.len() as int) == o
    &&& f[f.len() - o.len() - 1] == '.'
}

/// The name token a record with name `f` gets in a zonefile with origin `o`:
/// `@` for the origin itself, the remainder for a strict subdomain, and the
/// full name for anything not under the origin.
pub open spec fn rendered_name_spec(f: Seq<char>, o: Seq<char>) -> Seq<char> {
    if f == o {
        seq!['@']
    } else if is_origin_suffix(f, o) {
        f.subrange(0, f.len() - o.len() - 1)
    } else {
        f
    }
}

/// A fully-qualified domain name in textual form.
pub struct DomainName {
    text: String,
}

impl View for DomainName {
    type V = Seq<char>;

    closed spec fn view(&self) -> Seq<char> {
        self.text@
    }
}

impl DomainName {
    /// The domain name is well formed.
    pub open spec fn wf(&self) -> bool {
        is_fqdn(self@)
    }

    /// Accepts exactly the well-formed fully-qualified spellings: non-empty,
    /// ending in a dot, with no empty label.
    pub fn parse(s: &str) -> (r: Option<DomainName>)
        ensures
            r is Some <==> is_fqdn(s@),
            r is Some ==> r->0@ == s@ && r->0.wf(),
    {
        let n = s.unicode_len();
        if n == 0 {
            return None;
        }
        if s.get_char(n - 1) != '.' {
            return None;
        }
        if s.get_char(0) == '.' {
            return None;
        }
        let mut i: usize = 1;
        while i < n
            invariant
                1 <= i <= n,
                n == s@.len(),
                forall|j: int| 1 <= j < i ==> !((#[trigger] s@[j]) == '.' && s@[j - 1] == '.'),
            decreases n - i,
        {
            if s.get_char(i) == '.' && s.get_char(i - 1) == '.' {
                return None;
            }
            i = i + 1;
        }
        Some(DomainName { text: s.to_owned() })
    }

    /// The textual form, e.g. `"www.example.org."`.
    pub fn as_str(&self) -> (r: &str)
        ensures
            r@ == self@,
    {
        self.text.as_str()
    }

    /// The length of the textual form.
    pub fn str_len(&self) -> (r: usize)
        ensures
            r == self@.len(),
    {
        self.text.as_str().unicode_len()
    }
}

/// The characters of `f` starting at `off` are exactly `o`.
fn tail_matches(f: &str, o: &str, off: usize) -> (r: bool)
    requires
        off + o@.len() == f@.len(),
    ensures
        r <==> f@.subrange(off as int, f@.len() as int) == o@,
{
    let n = f.unicode_len();
    let m = o.unicode_len();
    let mut i: usize = 0;
    while i < m
        invariant
            0 <= i <= m,
            m == o@.len(),
            n == f@.len(),
            off + m == n,
            forall|j: int| 0 <= j < i ==> f@[off + j] == o@[j],
        decreases m - i,
    {
        if f.get_char(off + i) != o.get_char(i) {
            proof {
                assert(f@.subrange(off as int, f@.len() as int)[i as int] == f@[off + i]);
            }
            return false;
        }
        i = i + 1;
    }
    proof {
        assert(f@.subrange(off as int, f@.len() as int) =~= o@);
    }
    true
}

/// Renders `fqdn` relative to `origin`: `@` when they are equal, the
/// remainder when `origin` is a strict domain suffix, and the unchanged
/// fully-qualified name otherwise.
pub fn rendered_name(fqdn: &DomainName, origin: &DomainName) -> (r: String)
    ensures
        r@ == rendered_name_spec(fqdn@, origin@),
{
    let f = fqdn.as_str();
    let o = origin.as_str();
    let n = f.unicode_len();
    let m = o.unicode_len();
    if n == m {
        if tail_matches(f, o, 0) {
            proof {
                assert(f@.subrange(0, f@.len() as int) =~= f@);
                reveal_strlit("@");
                assert("@"@ =~= seq!['@']);
            }
            return "@".to_owned();
        }
        proof {
            assert(f@.subrange(0, f@.len() as int) =~= f@);
            assert(f@ != o@);
        }
        return f.to_owned();
    }
    if n > m {
        if tail_matches(f, o, n - m) && f.get_char(n - m - 1) == '.' {
            let r = f.substring_char(0, n - m - 1);
            proof {
                assert(f@.len() != o@.len());
                assert(is_origin_suffix(f@, o@));
            }
            return r.to_owned();
        }
        proof {
            assert(f@ != o@);
        }
        return f.to_owned();
    }
    proof {
        assert(f@ != o@);
        assert(!is_origin_suffix(f@, o@));
    }
    f.to_owned()
}

/// Law: relativization round-trip. The origin itself renders as the token
/// `@`; a name assembled as `<prefix>.<origin>` renders back as exactly
/// `<prefix>`; and a name with no such decomposition renders unchanged as the
/// full fully-qualified name.
pub proof fn lemma_relativization_round_trip(f: Seq<char>, o: Seq<char>, prefix: Seq<char>)
    ensures
        rendered_name_spec(o, o) == seq!['@'],
        rendered_name_spec(prefix + seq!['.'] + o, o) == prefix,
        f != o && !is_origin_suffix(f, o) ==> rendered_name_spec(f, o) == f,
{
    let g = prefix + seq!['.'] + o;
    if g == o {
        assert(g.len() == o.len());
        assert(false);
    }
    assert(g.subrange(g.len() - o.len(), g.len() as int) =~= o);
    assert(g[g.len() - o.len() - 1] == '.');
    assert(is_origin_suffix(g, o));
    assert(g.subrange(0, g.len() - o.len() - 1) =~= prefix);
}

} // verus!
