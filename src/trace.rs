//! The trace renderer: a byte sequence as lines of sixteen bytes, each with a
//! fixed-width hexadecimal offset, the bytes in hexadecimal, and their
//! printable characters.
use vstd::prelude::*;
use vstd::string::{StrSliceExecFns, StringExecFns};

verus! {

/// Number of bytes shown on one line of a trace.
pub const LINE_WIDTH: usize = 16;

/// Lower-case hexadecimal digit for `d < 16`.
pub open spec fn hex_digit(d: nat) -> char {
    if d < 10 {
        ((d + 48) as u8) as char
    } else {
        ((d + 87) as u8) as char
    }
}

/// `16` raised to `e`.
pub open spec fn pow16(e: nat) -> nat
    decreases e,
{
    if e == 0 {
        1
    } else {
        16 * pow16((e - 1) as nat)
    }
}

/// The offset column: the low 32 bits of `n` as eight hexadecimal digits.
pub open spec fn offset_column(n: nat) -> Seq<char> {
    Seq::new(8, |k: int| hex_digit((n / pow16((7 - k) as nat)) % 16))
}

/// Whether a byte is printable ASCII, the space included.
pub open spec fn is_printable(x: u8) -> bool {
    0x20 <= x <= 0x7e
}

/// The character column entry of a byte: itself when printable, else a dot.
pub open spec fn trace_char(x: u8) -> char {
    if is_printable(x) {
        x as char
    } else {
        '.'
    }
}

/// Whether rhexdump shows a byte as itself: the visible ASCII characters,
/// `!` through `~`, which leaves out the space.
pub open spec fn is_graphic(x: u8) -> bool {
    0x21 <= x <= 0x7e
}

/// rhexdump's character column entry of a byte.
pub open spec fn graphic_char(x: u8) -> char {
    if is_graphic(x) {
        x as char
    } else {
        '.'
    }
}

/// The hexadecimal column of a line: a space and two digits per byte.
pub open spec fn hex_column(chunk: Seq<u8>) -> Seq<char> {
    Seq::new(
        3 * chunk.len(),
        |k: int|
            if k % 3 == 0 {
                ' '
            } else if k % 3 == 1 {
                hex_digit((chunk[k / 3] / 16) as nat)
            } else {
                hex_digit((chunk[k / 3] % 16) as nat)
            },
    )
}

/// `n` spaces.
pub open spec fn spaces(n: nat) -> Seq<char> {
    Seq::new(n, |k: int| ' ')
}

/// The first 59 characters of a line for the bytes `chunk` (at most
/// sixteen) that start at offset `off`: the offset, a colon, the hexadecimal
/// column, and the padding that puts the character column at the same place
/// on every line.
pub open spec fn line_prefix(off: nat, chunk: Seq<u8>) -> Seq<char> {
    offset_column(off) + seq![':'] + hex_column(chunk) + spaces((2 + 3 * (16 - chunk.len())) as nat)
}

/// One line of a trace.
pub open spec fn trace_line(off: nat, chunk: Seq<u8>) -> Seq<char> {
    line_prefix(off, chunk) + chunk.map_values(|x: u8| trace_char(x)) + seq!['\n']
}

/// One line as rhexdump lays it out: the same, but for a space, which its
/// character column shows as a dot.
pub open spec fn dump_line(off: nat, chunk: Seq<u8>) -> Seq<char> {
    line_prefix(off, chunk) + chunk.map_values(|x: u8| graphic_char(x)) + seq!['\n']
}

/// Number of lines in the trace of `n` bytes.
pub open spec fn line_count(n: nat) -> nat {
    (n + 15) / 16
}

/// The bytes shown on line `i` of the trace of `b`.
pub open spec fn line_bytes(b: Seq<u8>, i: int) -> Seq<u8> {
    b.subrange(16 * i, if 16 * i + 16 <= b.len() { 16 * i + 16 } else { b.len() as int })
}

/// The lines of the trace of `b`, in order.
pub open spec fn trace_lines(b: Seq<u8>) -> Seq<Seq<char>> {
    Seq::new(line_count(b.len()), |i: int| trace_line((16 * i) as nat, line_bytes(b, i)))
}

/// The full trace of `b`: its lines one after another.
pub open spec fn trace_text(b: Seq<u8>) -> Seq<char> {
    trace_lines(b).flatten()
}

/// Relies on rhexdump's `RhexdumpString::hexdump_bytes_offset` with the
/// default configuration (hexadecimal, bytes grouped one by one, sixteen per
/// line, 32-bit offsets, no elision of repeated lines): for at most sixteen
/// bytes it writes the single line that `dump_line` states.
#[verifier::external_body]
fn hexdump_line(chunk: &[u8], off: u64) -> (r: String)
    requires
        0 < chunk@.len() <= 16,
    ensures
        r@ == dump_line(off as nat, chunk@),
{
    rhexdump::hexdump::RhexdumpString::new().hexdump_bytes_offset(chunk, off)
}

/// Appends to `out` the trace line of `chunk` made from rhexdump's `line`:
/// the line is copied, with a space in the character column for each space
/// byte.
fn push_trace_line(out: &mut String, line: &String, chunk: &[u8], off: u64)
    requires
        0 < chunk@.len() <= 16,
        line@ == dump_line(off as nat, chunk@),
    ensures
        final(out)@ == old(out)@ + trace_line(off as nat, chunk@),
{
    let ghost prefix = line_prefix(off as nat, chunk@);
    let ghost column = chunk@.map_values(|x: u8| trace_char(x));
    let n = chunk.len();
    assert(line@.subrange(0, 59) =~= prefix);
    out.append(line.as_str().substring_char(0, 59));
    let mut j: usize = 0;
    while j < n
        invariant
            0 <= j <= n,
            n == chunk@.len(),
            n <= 16,
            line@ == dump_line(off as nat, chunk@),
            prefix == line_prefix(off as nat, chunk@),
            column.len() == n,
            forall|k: int| 0 <= k < n ==> column[k] == trace_char(#[trigger] chunk@[k]),
            out@ == old(out)@ + prefix + column.take(j as int),
        decreases n - j,
    {
        assert(line@[59 + j] == graphic_char(chunk@[j as int]));
        assert(column.take(j + 1) =~= column.take(j as int).push(trace_char(chunk@[j as int])));
        if chunk[j] == 0x20 {
            proof {
                reveal_strlit(" ");
            }
            out.append(" ");
            assert(" "@ =~= seq![trace_char(chunk@[j as int])]);
        } else {
            let c = line.as_str().substring_char(59 + j, 60 + j);
            assert(c@ =~= seq![trace_char(chunk@[j as int])]);
            out.append(c);
        }
        j = j + 1;
    }
    out.append(line.as_str().substring_char(59 + n, 60 + n));
    assert(column.take(n as int) =~= column);
    assert(out@ =~= old(out)@ + trace_line(off as nat, chunk@));
}

/// The trace of `b`: one line per sixteen bytes or part thereof, each with
/// the offset of its first byte, the bytes in hexadecimal, and the bytes as
/// printable ASCII characters or dots. No bytes give an empty trace.
pub fn render(b: &[u8]) -> (r: String)
    ensures
        r@ == trace_text(b@),
{
    let mut out = String::new();
    let mut start: usize = 0;
    let ghost mut i: int = 0;
    while start < b.len()
        invariant
            0 <= i <= line_count(b@.len()),
            start <= b@.len(),
            i < line_count(b@.len()) ==> start == 16 * i,
            i == line_count(b@.len()) ==> start == b@.len(),
            out@ == trace_lines(b@).take(i).flatten(),
        decreases b@.len() - start,
    {
        let end = if b.len() - start > 16 {
            start + 16
        } else {
            b.len()
        };
        let mut chunk: Vec<u8> = Vec::new();
        let mut k = start;
        while k < end
            invariant
                start <= k <= end <= b@.len(),
                chunk@ == b@.subrange(start as int, k as int),
            decreases end - k,
        {
            chunk.push(b[k]);
            assert(chunk@ =~= b@.subrange(start as int, k + 1));
            k = k + 1;
        }
        assert(chunk@ == line_bytes(b@, i));
        let line = hexdump_line(chunk.as_slice(), start as u64);
        push_trace_line(&mut out, &line, chunk.as_slice(), start as u64);
        proof {
            let lines = trace_lines(b@);
            assert(lines.take(i + 1) =~= lines.take(i).push(lines[i]));
            lines.take(i).lemma_flatten_push(lines[i]);
            i = i + 1;
        }
        start = end;
    }
    assert(trace_lines(b@).take(i) =~= trace_lines(b@));
    out
}

/// Whether `c` is a line break.
pub open spec fn is_newline(c: char) -> bool {
    c == '\n'
}

/// Each line of a trace ends in a line break and holds no other.
proof fn lemma_line_shape(off: nat, chunk: Seq<u8>)
    requires
        chunk.len() <= 16,
    ensures
        trace_line(off, chunk).len() == 60 + chunk.len(),
        trace_line(off, chunk).last() == '\n',
        forall|k: int| 0 <= k < trace_line(off, chunk).len() - 1 ==> trace_line(off, chunk)[k] != '\n',
{
    let line = trace_line(off, chunk);
    let n = chunk.len() as int;
    assert forall|k: int| 0 <= k < line.len() - 1 implies line[k] != '\n' by {
        if k < 8 {
        } else if k == 8 {
        } else if k < 9 + 3 * n {
            let h = k - 9;
            if h % 3 == 1 {
                assert(hex_column(chunk)[h] == hex_digit((chunk[h / 3] / 16) as nat));
            } else if h % 3 == 2 {
                assert(hex_column(chunk)[h] == hex_digit((chunk[h / 3] % 16) as nat));
            }
        } else if k < 59 {
        } else {
            assert(chunk.map_values(|x: u8| trace_char(x))[k - 59] == trace_char(chunk[k - 59]));
        }
    }
}

/// A line of a trace holds exactly one line break.
proof fn lemma_line_newlines(off: nat, chunk: Seq<u8>)
    requires
        chunk.len() <= 16,
    ensures
        trace_line(off, chunk).filter(|c: char| is_newline(c)).len() == 1,
{
    let line = trace_line(off, chunk);
    let pred = |c: char| is_newline(c);
    lemma_line_shape(off, chunk);
    let body = line.drop_last();
    assert(line == body + seq!['\n']);
    Seq::filter_distributes_over_add(body, seq!['\n'], pred);
    reveal_with_fuel(Seq::filter, 2);
    if body.filter(pred).len() > 0 {
        body.lemma_filter_pred(pred, 0);
        assert(body.filter(pred).contains(body.filter(pred)[0]));
        body.lemma_filter_contains_rev(pred, body.filter(pred)[0]);
    }
}

/// The number of line breaks in the trace of `b` from line `i` on.
proof fn lemma_newlines_from(b: Seq<u8>, i: int)
    requires
        0 <= i <= trace_lines(b).len(),
    ensures
        trace_lines(b).skip(i).flatten().filter(|c: char| is_newline(c)).len() == trace_lines(b).len() - i,
    decreases trace_lines(b).len() - i,
{
    let lines = trace_lines(b);
    let pred = |c: char| is_newline(c);
    let rest = lines.skip(i);
    if i < lines.len() {
        lemma_newlines_from(b, i + 1);
        assert(rest.drop_first() == lines.skip(i + 1));
        assert(rest.first() == lines[i]);
        assert(rest.flatten() == lines[i] + lines.skip(i + 1).flatten());
        Seq::filter_distributes_over_add(lines[i], lines.skip(i + 1).flatten(), pred);
        lemma_line_newlines((16 * i) as nat, line_bytes(b, i));
    } else {
        assert(rest.len() == 0);
        assert(rest.flatten() == Seq::<char>::empty());
        reveal_with_fuel(Seq::filter, 1);
    }
}

/// Rendering is a function of the bytes alone: equal inputs give equal
/// traces.
pub proof fn lemma_render_deterministic(a: Seq<u8>, b: Seq<u8>)
    requires
        a == b,
    ensures
        trace_text(a) == trace_text(b),
{
}

/// The trace of no bytes is empty.
pub proof fn lemma_render_empty()
    ensures
        trace_lines(Seq::<u8>::empty()).len() == 0,
        trace_text(Seq::<u8>::empty()) == Seq::<char>::empty(),
{
    assert(trace_lines(Seq::<u8>::empty()) =~= Seq::<Seq<char>>::empty());
}

/// The trace of `b` has one line for every sixteen bytes or part thereof:
/// it is its lines one after another, each ends in the only line break it
/// holds, and so the whole text holds `ceil(len / 16)` line breaks.
pub proof fn lemma_render_line_count(b: Seq<u8>)
    ensures
        trace_lines(b).len() == (b.len() + 15) / 16,
        trace_text(b) == trace_lines(b).flatten(),
        forall|i: int|
            0 <= i < trace_lines(b).len() ==> {
                &&& (#[trigger] trace_lines(b)[i]).last() == '\n'
                &&& forall|k: int|
                    0 <= k < trace_lines(b)[i].len() - 1 ==> trace_lines(b)[i][k] != '\n'
            },
        trace_text(b).filter(|c: char| is_newline(c)).len() == (b.len() + 15) / 16,
{
    assert forall|i: int| 0 <= i < trace_lines(b).len() implies {
        &&& (#[trigger] trace_lines(b)[i]).last() == '\n'
        &&& forall|k: int|
            0 <= k < trace_lines(b)[i].len() - 1 ==> trace_lines(b)[i][k] != '\n'
    } by {
        lemma_line_shape((16 * i) as nat, line_bytes(b, i));
    }
    lemma_newlines_from(b, 0);
    assert(trace_lines(b).skip(0) == trace_lines(b));
}

/// Where each byte appears on its line: line `i` shows byte `16 * i + j` as
/// two hexadecimal digits between spaces, at column `10 + 3 * j`, and in the
/// character column at `59 + j`, as itself when it is printable ASCII (the
/// space included) and as a dot otherwise.
pub proof fn lemma_render_byte_columns(b: Seq<u8>, i: int, j: int)
    requires
        0 <= i < line_count(b.len()),
        0 <= j < 16,
        16 * i + j < b.len(),
    ensures
        ({
            let x = b[16 * i + j];
            let line = trace_lines(b)[i];
            &&& line[9 + 3 * j] == ' '
            &&& line[10 + 3 * j] == hex_digit((x / 16) as nat)
            &&& line[11 + 3 * j] == hex_digit((x % 16) as nat)
            &&& line[12 + 3 * j] == ' '
            &&& line[59 + j] == if 0x20 <= x <= 0x7e { x as char } else { '.' }
        }),
{
    let chunk = line_bytes(b, i);
    let line = trace_line((16 * i) as nat, chunk);
    let n = chunk.len() as int;
    assert(chunk[j] == b[16 * i + j]);
    let h = 3 * j;
    assert(hex_column(chunk)[h] == ' ');
    assert(hex_column(chunk)[h + 1] == hex_digit((chunk[j] / 16) as nat));
    assert(hex_column(chunk)[h + 2] == hex_digit((chunk[j] % 16) as nat));
    if j + 1 < n {
        assert(hex_column(chunk)[h + 3] == ' ');
    }
    assert(chunk.map_values(|x: u8| trace_char(x))[j] == trace_char(chunk[j]));
}

/// Every hexadecimal digit is one of `0`-`9`, `a`-`f`.
pub proof fn lemma_hex_digit_range(d: nat)
    requires
        d < 16,
    ensures
        ('0' <= hex_digit(d) <= '9') || ('a' <= hex_digit(d) <= 'f'),
{
}

} // verus!
