//! Zonefile rendering: a pure, total function from an origin and an ordered
//! record list to zonefile text.
//!
//! Each record renders as one line: its name relative to the origin, padded
//! to the length of the longest record name in the set, then the TTL padded
//! to eight columns, then class, record type and record data, separated by
//! single spaces. The lines are joined with single newlines and prefixed
//! with a `$ORIGIN` header. Records are rendered in their given order, and a
//! record whose name is not under the origin renders with its full name
//! rather than being dropped or rejected.

use vstd::prelude::*;

use crate::domain::DomainName;
use crate::domain::rendered_name;
use crate::domain::rendered_name_spec;

verus! {

/// A DNS record as rendered into a zonefile: a fully-qualified name, record
/// type, class, time-to-live and record data.
pub struct Record {
    pub fqdn: DomainName,
    pub record_type: String,
    pub class: String,
    pub ttl: u32,
    pub rdata: String,
}

/// `n` spaces.
pub open spec fn spaces(n: nat) -> Seq<char>
    decreases n,
{
    if n == 0 {
        Seq::empty()
    } else {
        spaces((n - 1) as nat).push(' ')
    }
}

/// `s` left-justified in a field of width `w`: padded with spaces up to `w`,
/// or unchanged if already at least that long.
pub open spec fn pad_to(s: Seq<char>, w: nat) -> Seq<char> {
    if s.len() >= w {
        s
    } else {
        s + spaces((w - s.len()) as nat)
    }
}

/// The decimal digit character for `d` (`0 <= d <= 9`).
pub open spec fn digit_char(d: nat) -> char {
    if d == 0 {
        '0'
    } else if d == 1 {
        '1'
    } else if d == 2 {
        '2'
    } else if d == 3 {
        '3'
    } else if d == 4 {
        '4'
    } else if d == 5 {
        '5'
    } else if d == 6 {
        '6'
    } else if d == 7 {
        '7'
    } else if d == 8 {
        '8'
    } else {
        '9'
    }
}

/// The decimal spelling of `n`, without leading zeros (just `0` for zero).
pub open spec fn dec_str(n: nat) -> Seq<char>
    decreases n,
{
    if n < 10 {
        seq![digit_char(n)]
    } else {
        dec_str(n / 10).push(digit_char(n % 10))
    }
}

/// The width of the name column: the length of the longest fully-qualified
/// record name in the set, zero for an empty set.
pub open spec fn width_spec(entries: Seq<Record>) -> nat
    decreases entries.len(),
{
    if entries.len() == 0 {
        0
    } else {
        let rest = width_spec(entries.drop_last());
        let l = entries.last().fqdn@.len();
        if l > rest {
            l
        } else {
            rest
        }
    }
}

/// One rendered line: relative name padded to the name column width, TTL
/// padded to eight columns, then class, record type and record data,
/// separated by single spaces.
pub open spec fn line_spec(origin: Seq<char>, width: nat, r: Record) -> Seq<char> {
    pad_to(rendered_name_spec(r.fqdn@, origin), width) + seq![' '] + pad_to(
        dec_str(r.ttl as nat),
        8,
    ) + seq![' '] + r.class@ + seq![' '] + r.record_type@ + seq![' '] + r.rdata@
}

/// All rendered lines in order, joined with single newlines.
pub open spec fn body_spec(origin: Seq<char>, width: nat, entries: Seq<Record>) -> Seq<char>
    decreases entries.len(),
{
    if entries.len() == 0 {
        Seq::empty()
    } else if entries.len() == 1 {
        line_spec(origin, width, entries[0])
    } else {
        body_spec(origin, width, entries.drop_last()) + seq!['\n'] + line_spec(
            origin,
            width,
            entries.last(),
        )
    }
}

/// The complete zonefile text: `$ORIGIN <origin>`, a blank line, then the
/// rendered record lines.
pub open spec fn render_spec(origin: Seq<char>, entries: Seq<Record>) -> Seq<char> {
    seq!['$', 'O', 'R', 'I', 'G', 'I', 'N', ' '] + origin + seq!['\n', '\n'] + body_spec(
        origin,
        width_spec(entries),
        entries,
    )
}

/// Pads `s` on the right with spaces to width `w`.
fn pad_string(s: String, w: usize) -> (r: String)
    ensures
        r@ == pad_to(s@, w as nat),
{
    let mut s = s;
    let mut i: usize = s.as_str().unicode_len();
    if i >= w {
        return s;
    }
    let ghost orig = s@;
    while i < w
        invariant
            i == s@.len(),
            i <= w,
            s@ == pad_to(orig, i as nat),
            orig.len() <= i,
        decreases w - i,
    {
        s.append(" ");
        i = i + 1;
        proof {
            reveal_strlit(" ");
            assert(" "@ =~= seq![' ']);
            assert(spaces((i - orig.len()) as nat) == spaces(
                (i - 1 - orig.len()) as nat,
            ).push(' '));
            assert(s@ =~= orig + spaces((i - orig.len()) as nat));
        }
    }
    s
}

/// Returns the one-character string for decimal digit `d`.
fn digit_string(d: u32) -> (r: &'static str)
    requires
        d <= 9,
    ensures
        r@ == seq![digit_char(d as nat)],
{
    proof {
        reveal_strlit("0");
        reveal_strlit("1");
        reveal_strlit("2");
        reveal_strlit("3");
        reveal_strlit("4");
        reveal_strlit("5");
        reveal_strlit("6");
        reveal_strlit("7");
        reveal_strlit("8");
        reveal_strlit("9");
    }
    let r = if d == 0 {
        "0"
    } else if d == 1 {
        "1"
    } else if d == 2 {
        "2"
    } else if d == 3 {
        "3"
    } else if d == 4 {
        "4"
    } else if d == 5 {
        "5"
    } else if d == 6 {
        "6"
    } else if d == 7 {
        "7"
    } else if d == 8 {
        "8"
    } else {
        "9"
    };
    proof {
        assert(r@ =~= seq![digit_char(d as nat)]);
    }
    r
}

/// Renders `n` in decimal.
fn u32_to_dec(n: u32) -> (r: String)
    ensures
        r@ == dec_str(n as nat),
    decreases n,
{
    if n < 10 {
        digit_string(n).to_owned()
    } else {
        let mut s = u32_to_dec(n / 10);
        s.append(digit_string(n % 10));
        proof {
            assert(s@ =~= dec_str((n / 10) as nat).push(digit_char((n % 10) as nat)));
        }
        s
    }
}

/// Renders one record line.
fn render_line(origin: &DomainName, width: usize, r: &Record) -> (out: String)
    ensures
        out@ == line_spec(origin@, width as nat, *r),
{
    let name = rendered_name(&r.fqdn, origin);
    let mut out = pad_string(name, width);
    out.append(" ");
    let ttl = pad_string(u32_to_dec(r.ttl), 8);
    out.append(ttl.as_str());
    out.append(" ");
    out.append(r.class.as_str());
    out.append(" ");
    out.append(r.record_type.as_str());
    out.append(" ");
    out.append(r.rdata.as_str());
    proof {
        reveal_strlit(" ");
        assert(" "@ =~= seq![' ']);
    }
    out
}

/// Renders the zonefile for `origin` over `entries`: the `$ORIGIN` header, a
/// blank line, and one line per record in the given order, with the name
/// column sized to the longest fully-qualified record name.
pub fn build_zonefile(origin: &DomainName, entries: &[Record]) -> (r: String)
    ensures
        r@ == render_spec(origin@, entries@),
{
    let n = entries.len();
    let mut width: usize = 0;
    let mut i: usize = 0;
    while i < n
        invariant
            0 <= i <= n,
            n == entries@.len(),
            width == width_spec(entries@.take(i as int)),
        decreases n - i,
    {
        let l = entries[i].fqdn.str_len();
        if l > width {
            width = l;
        }
        proof {
            assert(entries@.take(i + 1).drop_last() =~= entries@.take(i as int));
            assert(entries@.take(i + 1).last() == entries@[i as int]);
        }
        i = i + 1;
    }
    proof {
        assert(entries@.take(n as int) =~= entries@);
    }
    let mut body = String::new();
    let mut j: usize = 0;
    while j < n
        invariant
            0 <= j <= n,
            n == entries@.len(),
            width == width_spec(entries@),
            body@ == body_spec(origin@, width as nat, entries@.take(j as int)),
        decreases n - j,
    {
        if j > 0 {
            body.append("\n");
        }
        let line = render_line(origin, width, &entries[j]);
        body.append(line.as_str());
        proof {
            reveal_strlit("\n");
            assert("\n"@ =~= seq!['\n']);
            assert(entries@.take(j + 1).drop_last() =~= entries@.take(j as int));
            assert(entries@.take(j + 1).last() == entries@[j as int]);
            assert(entries@.take(j + 1)[0] == entries@[0]);
        }
        j = j + 1;
    }
    proof {
        assert(entries@.take(n as int) =~= entries@);
    }
    let mut out = String::new();
    out.append("$ORIGIN ");
    out.append(origin.as_str());
    out.append("\n\n");
    out.append(body.as_str());
    proof {
        reveal_strlit("$ORIGIN ");
        reveal_strlit("\n\n");
        assert("$ORIGIN "@ =~= seq!['$', 'O', 'R', 'I', 'G', 'I', 'N', ' ']);
        assert("\n\n"@ =~= seq!['\n', '\n']);
        assert(out@ =~= render_spec(origin@, entries@));
    }
    out
}

/// Law: rendering is deterministic. The rendered text is a function of the
/// origin and the record sequence alone, so identical inputs always render
/// to byte-identical output; `build_zonefile` pins its result to this
/// function.
pub proof fn lemma_render_deterministic(
    origin1: Seq<char>,
    entries1: Seq<Record>,
    origin2: Seq<char>,
    entries2: Seq<Record>,
)
    requires
        origin1 == origin2,
        entries1 == entries2,
    ensures
        render_spec(origin1, entries1) == render_spec(origin2, entries2),
{
}

/// The name column width bounds every fully-qualified record name in the
/// set, and is attained by one of them when the set is non-empty.
pub proof fn lemma_width_is_max(entries: Seq<Record>)
    ensures
        forall|i: int| 0 <= i < entries.len() ==> (#[trigger] entries[i].fqdn@).len()
            <= width_spec(entries),
        entries.len() > 0 ==> exists|i: int|
            0 <= i < entries.len() && (#[trigger] entries[i].fqdn@).len() == width_spec(entries),
    decreases entries.len(),
{
    if entries.len() > 0 {
        lemma_width_is_max(entries.drop_last());
        assert forall|i: int| 0 <= i < entries.len() implies (#[trigger] entries[i].fqdn@).len()
            <= width_spec(entries) by {
            if i < entries.len() - 1 {
                assert(entries.drop_last()[i] == entries[i]);
            }
        }
        let last = entries.len() - 1;
        if entries.last().fqdn@.len() == width_spec(entries) {
            assert(entries[last].fqdn@.len() == width_spec(entries));
        } else {
            assert(entries.len() > 1);
            let i = choose|i: int|
                0 <= i < entries.drop_last().len() && (#[trigger] entries.drop_last()[i].fqdn@).len()
                    == width_spec(entries.drop_last());
            assert(entries[i].fqdn@.len() == width_spec(entries));
        }
    }
}

/// `n` spaces are `n` characters.
pub proof fn lemma_spaces_len(n: nat)
    ensures
        spaces(n).len() == n,
    decreases n,
{
    if n > 0 {
        lemma_spaces_len((n - 1) as nat);
    }
}

/// A rendered name is never longer than the fully-qualified name it came
/// from (the name must be non-empty, as every well-formed one is).
pub proof fn lemma_rendered_name_len(f: Seq<char>, o: Seq<char>)
    requires
        f.len() >= 1,
    ensures
        rendered_name_spec(f, o).len() <= f.len(),
{
}

/// Law: column alignment. Every record's rendered name fits the name column,
/// and the name field of every line is exactly the column width: shorter
/// names are padded to it. When no record's name is relativized (none is the
/// origin or under it), the column width equals the length of the longest
/// rendered name; a relativized name renders shorter than the
/// fully-qualified name that sizes the column.
pub proof fn lemma_column_alignment(origin: Seq<char>, entries: Seq<Record>)
    requires
        forall|i: int| 0 <= i < entries.len() ==> (#[trigger] entries[i].fqdn@).len() >= 1,
    ensures
        forall|i: int|
            0 <= i < entries.len() ==> rendered_name_spec(
                (#[trigger] entries[i].fqdn@),
                origin,
            ).len() <= width_spec(entries),
        forall|i: int|
            0 <= i < entries.len() ==> pad_to(
                rendered_name_spec((#[trigger] entries[i].fqdn@), origin),
                width_spec(entries),
            ).len() == width_spec(entries),
        (forall|i: int|
            0 <= i < entries.len() ==> rendered_name_spec((#[trigger] entries[i].fqdn@), origin)
                == entries[i].fqdn@) ==> (entries.len() > 0 ==> exists|i: int|
            0 <= i < entries.len() && rendered_name_spec(
                (#[trigger] entries[i].fqdn@),
                origin,
            ).len() == width_spec(entries)),
{
    lemma_width_is_max(entries);
    assert forall|i: int| 0 <= i < entries.len() implies rendered_name_spec(
        (#[trigger] entries[i].fqdn@),
        origin,
    ).len() <= width_spec(entries) by {
        lemma_rendered_name_len(entries[i].fqdn@, origin);
    }
    assert forall|i: int| 0 <= i < entries.len() implies pad_to(
        rendered_name_spec((#[trigger] entries[i].fqdn@), origin),
        width_spec(entries),
    ).len() == width_spec(entries) by {
        let name = rendered_name_spec(entries[i].fqdn@, origin);
        let w = width_spec(entries);
        if name.len() < w {
            lemma_spaces_len((w - name.len()) as nat);
        }
    }
}

} // verus!
