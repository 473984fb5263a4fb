use vstd::prelude::*;

use crate::record::batch_view;
use crate::record::Record;
use crate::record::RecordView;

verus! {

/// The ASCII decimal digits of `n`, most significant first.
pub open spec fn spec_digits(n: nat) -> Seq<u8>
    decreases n,
{
    if n < 10 {
        seq![(48 + n) as u8]
    } else {
        spec_digits(n / 10).push((48 + n % 10) as u8)
    }
}

/// A value below 16 as its lowercase ASCII hexadecimal digit.
pub open spec fn spec_hex_digit(v: nat) -> u8 {
    if v < 10 {
        (48 + v) as u8
    } else {
        (87 + v) as u8
    }
}

/// The JSON string escape of one byte: quote and backslash get a leading
/// backslash, control bytes become a `\u00` escape, every other byte stands
/// for itself.
pub open spec fn spec_escape_byte(b: u8) -> Seq<u8> {
    if b == 34 || b == 92 {
        seq![92u8, b]
    } else if b < 32 {
        seq![
            92u8,
            117u8,
            48u8,
            48u8,
            spec_hex_digit((b / 16) as nat),
            spec_hex_digit((b % 16) as nat),
        ]
    } else {
        seq![b]
    }
}

/// The JSON string escape of a whole byte string, byte by byte in order.
pub open spec fn spec_escape(s: Seq<u8>) -> Seq<u8>
    decreases s.len(),
{
    if s.len() == 0 {
        Seq::empty()
    } else {
        spec_escape(s.drop_last()) + spec_escape_byte(s.last())
    }
}

/// One self-describing line of the local sink:
/// `[file::line::name],duration,ns` followed by a newline, the duration in
/// nanoseconds.
pub open spec fn spec_csv_line(r: RecordView) -> Seq<u8> {
    seq![91u8] + r.file + seq![58u8, 58u8] + spec_digits(r.line) + seq![58u8, 58u8] + r.name
        + seq![93u8, 44u8] + spec_digits(r.duration_ns) + seq![44u8, 110u8, 115u8, 10u8]
}

/// A batch for the local sink: one line per record, in batch order.
pub open spec fn spec_csv_lines(rs: Seq<RecordView>) -> Seq<u8>
    decreases rs.len(),
{
    if rs.len() == 0 {
        Seq::empty()
    } else {
        spec_csv_lines(rs.drop_last()) + spec_csv_line(rs.last())
    }
}

/// `{"duration_ns":` — the opening of a record object.
pub open spec fn spec_key_duration() -> Seq<u8> {
    seq![123u8, 34u8, 100u8, 117u8, 114u8, 97u8, 116u8, 105u8, 111u8, 110u8, 95u8, 110u8, 115u8, 34u8, 58u8]
}

/// `,"name":"`
pub open spec fn spec_key_name() -> Seq<u8> {
    seq![44u8, 34u8, 110u8, 97u8, 109u8, 101u8, 34u8, 58u8, 34u8]
}

/// `","file":"`
pub open spec fn spec_key_file() -> Seq<u8> {
    seq![34u8, 44u8, 34u8, 102u8, 105u8, 108u8, 101u8, 34u8, 58u8, 34u8]
}

/// `","line":`
pub open spec fn spec_key_line() -> Seq<u8> {
    seq![34u8, 44u8, 34u8, 108u8, 105u8, 110u8, 101u8, 34u8, 58u8]
}

/// `,"time_ms":`
pub open spec fn spec_key_time() -> Seq<u8> {
    seq![44u8, 34u8, 116u8, 105u8, 109u8, 101u8, 95u8, 109u8, 115u8, 34u8, 58u8]
}

/// One record as a JSON object, its string fields escaped, the optional
/// wall-clock timestamp present exactly when the record carries one.
pub open spec fn spec_json_record(r: RecordView) -> Seq<u8> {
    spec_key_duration() + spec_digits(r.duration_ns) + spec_key_name() + spec_escape(r.name)
        + spec_key_file() + spec_escape(r.file) + spec_key_line() + spec_digits(r.line) + (match r
        .time_ms {
        Some(t) => spec_key_time() + spec_digits(t),
        None => Seq::<u8>::empty(),
    }) + seq![125u8]
}

/// The record objects of a batch, joined by commas, in batch order.
pub open spec fn spec_json_records(rs: Seq<RecordView>) -> Seq<u8>
    decreases rs.len(),
{
    if rs.len() == 0 {
        Seq::empty()
    } else if rs.len() == 1 {
        spec_json_record(rs[0])
    } else {
        spec_json_records(rs.drop_last()) + seq![44u8] + spec_json_record(rs.last())
    }
}

/// The remote-sink submission body: a JSON array of the batch's records, in
/// batch order.
pub open spec fn spec_json_body(rs: Seq<RecordView>) -> Seq<u8> {
    seq![91u8] + spec_json_records(rs) + seq![93u8]
}

/// The local sink is monotonically appended, one self-describing line per
/// record: framing a batch extended by one record appends exactly that
/// record's line, so the sink's lines stand in the order the emitter
/// received the records, and earlier lines are never rewritten.
pub proof fn lemma_csv_lines_append(rs: Seq<RecordView>, r: RecordView)
    ensures
        spec_csv_lines(rs.push(r)) == spec_csv_lines(rs) + spec_csv_line(r),
{
    assert(rs.push(r).drop_last() =~= rs);
    assert(rs.push(r).last() == r);
}

/// Append the decimal digits of `n`.
fn push_digits(n: u64, out: &mut Vec<u8>)
    ensures
        final(out)@ == old(out)@ + spec_digits(n as nat),
    decreases n,
{
    if n < 10 {
        out.push(48 + n as u8);
        proof {
            assert(out@ =~= old(out)@ + spec_digits(n as nat));
        }
    } else {
        push_digits(n / 10, out);
        out.push(48 + (n % 10) as u8);
        proof {
            assert(out@ =~= old(out)@ + spec_digits(n as nat));
        }
    }
}

/// The decimal text of `n`.
pub fn format_u64(n: u64) -> (out: Vec<u8>)
    ensures
        out@ == spec_digits(n as nat),
{
    let mut out: Vec<u8> = Vec::new();
    push_digits(n, &mut out);
    proof {
        assert(out@ =~= spec_digits(n as nat));
    }
    out
}

/// Append a copy of `s`.
fn push_bytes(out: &mut Vec<u8>, s: &Vec<u8>)
    ensures
        final(out)@ == old(out)@ + s@,
{
    let mut i: usize = 0;
    while i < s.len()
        invariant
            i <= s@.len(),
            out@ == old(out)@ + s@.take(i as int),
        decreases s@.len() - i,
    {
        out.push(s[i]);
        proof {
            assert(out@ =~= old(out)@ + s@.take(i + 1 as int));
        }
        i = i + 1;
    }
    proof {
        assert(s@.take(s@.len() as int) =~= s@);
    }
}

/// A value below 16 as its lowercase ASCII hexadecimal digit.
fn hex_digit(v: u8) -> (d: u8)
    requires
        v < 16,
    ensures
        d == spec_hex_digit(v as nat),
{
    if v < 10 {
        48 + v
    } else {
        87 + v
    }
}

/// Append the JSON string escape of `s`.
fn push_escaped(out: &mut Vec<u8>, s: &Vec<u8>)
    ensures
        final(out)@ == old(out)@ + spec_escape(s@),
{
    let mut i: usize = 0;
    while i < s.len()
        invariant
            i <= s@.len(),
            out@ == old(out)@ + spec_escape(s@.take(i as int)),
        decreases s@.len() - i,
    {
        let b = s[i];
        if b == 34 || b == 92 {
            out.push(92);
            out.push(b);
        } else if b < 32 {
            out.push(92);
            out.push(117);
            out.push(48);
            out.push(48);
            out.push(hex_digit(b / 16));
            out.push(hex_digit(b % 16));
        } else {
            out.push(b);
        }
        proof {
            assert(s@.take(i + 1 as int).drop_last() =~= s@.take(i as int));
            assert(s@.take(i + 1 as int).last() == s@[i as int]);
            assert(out@ =~= old(out)@ + spec_escape(s@.take(i + 1 as int)));
        }
        i = i + 1;
    }
    proof {
        assert(s@.take(s@.len() as int) =~= s@);
    }
}

/// Frame one record for the local sink.
pub fn csv_line(r: &Record) -> (out: Vec<u8>)
    ensures
        out@ == spec_csv_line(r@),
{
    let mut out: Vec<u8> = Vec::new();
    out.push(91);
    push_bytes(&mut out, &r.file);
    out.push(58);
    out.push(58);
    push_digits(r.line as u64, &mut out);
    out.push(58);
    out.push(58);
    push_bytes(&mut out, &r.name);
    out.push(93);
    out.push(44);
    push_digits(r.duration_ns, &mut out);
    out.push(44);
    out.push(110);
    out.push(115);
    out.push(10);
    proof {
        assert(out@ =~= spec_csv_line(r@));
    }
    out
}

/// Frame a batch for the local sink: one line per record, in batch order,
/// ready to be appended to the sink file as a unit.
pub fn csv_lines(batch: &Vec<Record>) -> (out: Vec<u8>)
    ensures
        out@ == spec_csv_lines(batch_view(batch@)),
{
    let mut out: Vec<u8> = Vec::new();
    let mut i: usize = 0;
    while i < batch.len()
        invariant
            i <= batch@.len(),
            out@ == spec_csv_lines(batch_view(batch@.take(i as int))),
        decreases batch@.len() - i,
    {
        let line = csv_line(&batch[i]);
        push_bytes(&mut out, &line);
        proof {
            assert(batch_view(batch@.take(i + 1 as int)).drop_last() =~= batch_view(
                batch@.take(i as int),
            ));
            assert(batch_view(batch@.take(i + 1 as int)).last() == batch@[i as int]@);
            assert(out@ =~= spec_csv_lines(batch_view(batch@.take(i + 1 as int))));
        }
        i = i + 1;
    }
    proof {
        assert(batch@.take(batch@.len() as int) =~= batch@);
    }
    out
}

/// Append `{"duration_ns":`.
fn push_key_duration(out: &mut Vec<u8>)
    ensures
        final(out)@ == old(out)@ + spec_key_duration(),
{
    out.push(123);
    out.push(34);
    out.push(100);
    out.push(117);
    out.push(114);
    out.push(97);
    out.push(116);
    out.push(105);
    out.push(111);
    out.push(110);
    out.push(95);
    out.push(110);
    out.push(115);
    out.push(34);
    out.push(58);
    proof {
        assert(out@ =~= old(out)@ + spec_key_duration());
    }
}

/// Append `,"name":"`.
fn push_key_name(out: &mut Vec<u8>)
    ensures
        final(out)@ == old(out)@ + spec_key_name(),
{
    out.push(44);
    out.push(34);
    out.push(110);
    out.push(97);
    out.push(109);
    out.push(101);
    out.push(34);
    out.push(58);
    out.push(34);
    proof {
        assert(out@ =~= old(out)@ + spec_key_name());
    }
}

/// Append `","file":"`.
fn push_key_file(out: &mut Vec<u8>)
    ensures
        final(out)@ == old(out)@ + spec_key_file(),
{
    out.push(34);
    out.push(44);
    out.push(34);
    out.push(102);
    out.push(105);
    out.push(108);
    out.push(101);
    out.push(34);
    out.push(58);
    out.push(34);
    proof {
        assert(out@ =~= old(out)@ + spec_key_file());
    }
}

/// Append `","line":`.
fn push_key_line(out: &mut Vec<u8>)
    ensures
        final(out)@ == old(out)@ + spec_key_line(),
{
    out.push(34);
    out.push(44);
    out.push(34);
    out.push(108);
    out.push(105);
    out.push(110);
    out.push(101);
    out.push(34);
    out.push(58);
    proof {
        assert(out@ =~= old(out)@ + spec_key_line());
    }
}

/// Append `,"time_ms":`.
fn push_key_time(out: &mut Vec<u8>)
    ensures
        final(out)@ == old(out)@ + spec_key_time(),
{
    out.push(44);
    out.push(34);
    out.push(116);
    out.push(105);
    out.push(109);
    out.push(101);
    out.push(95);
    out.push(109);
    out.push(115);
    out.push(34);
    out.push(58);
    proof {
        assert(out@ =~= old(out)@ + spec_key_time());
    }
}

/// Append one record as a JSON object.
fn push_json_record(out: &mut Vec<u8>, r: &Record)
    ensures
        final(out)@ == old(out)@ + spec_json_record(r@),
{
    push_key_duration(out);
    push_digits(r.duration_ns, out);
    push_key_name(out);
    push_escaped(out, &r.name);
    push_key_file(out);
    push_escaped(out, &r.file);
    push_key_line(out);
    push_digits(r.line as u64, out);
    let ghost base = old(out)@ + spec_key_duration() + spec_digits(r@.duration_ns)
        + spec_key_name() + spec_escape(r@.name) + spec_key_file() + spec_escape(r@.file)
        + spec_key_line() + spec_digits(r@.line);
    proof {
        assert(out@ == base);
    }
    match r.time_ms {
        Some(t) => {
            push_key_time(out);
            push_digits(t, out);
            out.push(125);
            proof {
                assert(out@ =~= base + (spec_key_time() + spec_digits(t as nat)) + seq![125u8]);
                assert(out@ =~= old(out)@ + spec_json_record(r@));
            }
        },
        None => {
            out.push(125);
            proof {
                assert(out@ =~= base + Seq::<u8>::empty() + seq![125u8]);
                assert(out@ =~= old(out)@ + spec_json_record(r@));
            }
        },
    }
}

/// Frame a batch for the remote sink: the JSON array body of one batch
/// submission, records in batch order.
pub fn json_body(batch: &Vec<Record>) -> (out: Vec<u8>)
    ensures
        out@ == spec_json_body(batch_view(batch@)),
{
    let mut out: Vec<u8> = Vec::new();
    out.push(91);
    let mut i: usize = 0;
    while i < batch.len()
        invariant
            i <= batch@.len(),
            out@ == seq![91u8] + spec_json_records(batch_view(batch@.take(i as int))),
        decreases batch@.len() - i,
    {
        if i > 0 {
            out.push(44);
        }
        push_json_record(&mut out, &batch[i]);
        proof {
            assert(batch_view(batch@.take(i + 1 as int)).drop_last() =~= batch_view(
                batch@.take(i as int),
            ));
            assert(batch_view(batch@.take(i + 1 as int)).last() == batch@[i as int]@);
            assert(batch_view(batch@.take(i + 1 as int))[0] == batch@[0]@);
            assert(out@ =~= seq![91u8] + spec_json_records(batch_view(batch@.take(i + 1 as int))));
        }
        i = i + 1;
    }
    out.push(93);
    proof {
        assert(batch@.take(batch@.len() as int) =~= batch@);
        assert(out@ =~= spec_json_body(batch_view(batch@)));
    }
    out
}

} // verus!
