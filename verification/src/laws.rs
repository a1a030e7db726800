//! What holds of every record and of every text, stated over the functions
//! that make them.

use crate::grammar::{
    decimal, digit, escaped, is_digit, is_plain, joined, lemma_decimal_is_whole_number, member,
    percent_text, quoted, record,
};
use crate::percent::{lemma_share_of_the_whole, lemma_share_within_whole, Percent, FULL};
use crate::records::{counted, taken, DiskInfoView, MemoryInfo};
use crate::source::{memory_of, sandbox_identity, sandbox_memory, MemoryReading};
use crate::wire::{memory_members, memory_text, system_text};
use vstd::prelude::*;

verus! {

/// The usage of a memory record lies between zero and one hundred percent,
/// whatever is reported as used. It is the share of the used bytes in the
/// total where no more is used than the total, one hundred percent where
/// more is, and zero where the total is zero.
pub proof fn lemma_memory_usage_bounded(m: MemoryInfo)
    requires
        m.wf(),
    ensures
        m.usage_percent.within_full(),
        m.used <= m.total ==> m.usage_percent == Percent::spec_of(m.used, m.total),
        m.total > 0 && m.used > m.total ==> m.usage_percent.hundredths == FULL,
        m.total == 0 ==> m.usage_percent == Percent::spec_zero(),
{
    lemma_share_within_whole(counted(m.total, m.used) as nat, m.total as nat);
    if m.total > 0 {
        lemma_share_of_the_whole(m.total as nat);
    }
}

/// The usage of a disk record lies between zero and one hundred percent,
/// whatever is reported as available, and it is zero where the total is zero
/// or where no less is available than the total.
pub proof fn lemma_disk_usage_bounded(d: DiskInfoView)
    requires
        d.wf(),
    ensures
        d.usage_percent.within_full(),
        d.total_space == 0 || d.available_space >= d.total_space ==> d.usage_percent
            == Percent::spec_zero(),
{
    let used = taken(d.total_space, d.available_space);
    lemma_share_within_whole(used as nat, d.total_space as nat);
}

/// Two readings of the same counters give the same memory record and the
/// same text.
pub proof fn lemma_same_counters_same_text(first: MemoryReading, second: MemoryReading)
    requires
        first.total == second.total,
        first.used == second.used,
        first.available == second.available,
    ensures
        memory_of(first) == memory_of(second),
        memory_text(memory_of(first)) == memory_text(memory_of(second)),
{
}

/// The memory record of the sandboxed source has zero for every counter and
/// a usage of zero, and its text is
/// `{"total":0,"used":0,"available":0,"usage_percent":0.0}`.
pub proof fn lemma_sandbox_memory_text()
    ensures
        sandbox_memory() == (MemoryInfo {
            total: 0,
            used: 0,
            available: 0,
            usage_percent: Percent::spec_zero(),
        }),
        memory_text(sandbox_memory())
            == "{\"total\":0,\"used\":0,\"available\":0,\"usage_percent\":0.0}"@,
{
    reveal_strlit("total");
    reveal_strlit("used");
    reveal_strlit("available");
    reveal_strlit("usage_percent");
    reveal_strlit("{\"total\":0,\"used\":0,\"available\":0,\"usage_percent\":0.0}");
    let m = sandbox_memory();
    assert(decimal(0) =~= seq!['0']);
    reveal_with_fuel(joined, 5);
    assert(memory_text(m) =~= "{\"total\":0,\"used\":0,\"available\":0,\"usage_percent\":0.0}"@);
}

/// The text of the identity that the sandboxed source reports.
pub proof fn lemma_sandbox_identity_text()
    ensures
        system_text(sandbox_identity())
            == "{\"os\":\"WASM\",\"os_version\":\"N/A\",\"kernel_version\":\"N/A\",\"hostname\":\"browser\",\"cpu_count\":0,\"total_memory\":0,\"used_memory\":0,\"uptime\":0}"@,
{
    reveal_strlit("os");
    reveal_strlit("os_version");
    reveal_strlit("kernel_version");
    reveal_strlit("hostname");
    reveal_strlit("cpu_count");
    reveal_strlit("total_memory");
    reveal_strlit("used_memory");
    reveal_strlit("uptime");
    reveal_strlit("WASM");
    reveal_strlit("N/A");
    reveal_strlit("browser");
    reveal_strlit(
        "{\"os\":\"WASM\",\"os_version\":\"N/A\",\"kernel_version\":\"N/A\",\"hostname\":\"browser\",\"cpu_count\":0,\"total_memory\":0,\"used_memory\":0,\"uptime\":0}",
    );
    let v = sandbox_identity();
    assert(decimal(0) =~= seq!['0']);
    assert(quoted(v.os) =~= seq!['"', 'W', 'A', 'S', 'M', '"']) by {
        lemma_plain_text_escapes_to_itself(v.os);
    }
    assert(quoted(v.os_version) =~= seq!['"', 'N', '/', 'A', '"']) by {
        lemma_plain_text_escapes_to_itself(v.os_version);
    }
    assert(quoted(v.hostname) =~= seq!['"', 'b', 'r', 'o', 'w', 's', 'e', 'r', '"']) by {
        lemma_plain_text_escapes_to_itself(v.hostname);
    }
    reveal_with_fuel(joined, 9);
    assert(system_text(v)
        =~= "{\"os\":\"WASM\",\"os_version\":\"N/A\",\"kernel_version\":\"N/A\",\"hostname\":\"browser\",\"cpu_count\":0,\"total_memory\":0,\"used_memory\":0,\"uptime\":0}"@);
}

/// Text made of plain characters alone is its own escaped form.
pub proof fn lemma_plain_text_escapes_to_itself(s: Seq<char>)
    requires
        forall|i: int| 0 <= i < s.len() ==> is_plain(#[trigger] s[i]),
    ensures
        escaped(s) == s,
    decreases s.len(),
{
    if s.len() > 0 {
        lemma_plain_text_escapes_to_itself(s.drop_first());
        assert(escaped(s) =~= s);
    }
}

/// Two numbers with the same decimal digits are the same number.
pub proof fn lemma_decimal_injective(a: nat, b: nat)
    requires
        decimal(a) == decimal(b),
    ensures
        a == b,
    decreases a,
{
    lemma_decimal_is_whole_number(a / 10);
    lemma_decimal_is_whole_number(b / 10);
    if a < 10 && b < 10 {
        assert(decimal(a)[0] == digit(a));
        assert(decimal(b)[0] == digit(b));
    } else if a >= 10 && b >= 10 {
        let x = decimal(a / 10);
        let y = decimal(b / 10);
        assert(decimal(a).drop_last() =~= x);
        assert(decimal(b).drop_last() =~= y);
        assert(decimal(a).last() == digit(a % 10));
        assert(decimal(b).last() == digit(b % 10));
        lemma_decimal_injective(a / 10, b / 10);
    } else {
        assert(decimal(a).len() != decimal(b).len());
    }
}

/// Digits followed by something that is no digit can be read in one way
/// only.
proof fn lemma_digits_end_where_they_end(
    x: Seq<char>,
    after_x: Seq<char>,
    y: Seq<char>,
    after_y: Seq<char>,
)
    requires
        x + after_x == y + after_y,
        forall|i: int| 0 <= i < x.len() ==> is_digit(#[trigger] x[i]),
        forall|i: int| 0 <= i < y.len() ==> is_digit(#[trigger] y[i]),
        after_x.len() > 0 && !is_digit(after_x[0]),
        after_y.len() > 0 && !is_digit(after_y[0]),
    ensures
        x == y,
        after_x == after_y,
{
    let whole = x + after_x;
    if x.len() < y.len() {
        assert(whole[x.len() as int] == after_x[0]);
        assert((y + after_y)[x.len() as int] == y[x.len() as int]);
    } else if y.len() < x.len() {
        assert((y + after_y)[y.len() as int] == after_y[0]);
        assert(whole[y.len() as int] == x[y.len() as int]);
    } else {
        assert(x =~= whole.take(x.len() as int));
        assert(y =~= (y + after_y).take(y.len() as int));
        assert(after_x =~= whole.skip(x.len() as int));
        assert(after_y =~= (y + after_y).skip(y.len() as int));
    }
}

/// Two percentages with the same text are the same percentage.
pub proof fn lemma_percent_text_injective(a: nat, b: nat)
    requires
        percent_text(a) == percent_text(b),
    ensures
        a == b,
{
    let x = decimal(a / 100);
    let y = decimal(b / 100);
    lemma_decimal_is_whole_number(a / 100);
    lemma_decimal_is_whole_number(b / 100);
    let after_x = percent_text(a).skip(x.len() as int);
    let after_y = percent_text(b).skip(y.len() as int);
    assert(percent_text(a) =~= x + after_x);
    assert(percent_text(b) =~= y + after_y);
    assert(after_x[0] == '.');
    assert(after_y[0] == '.');
    lemma_digits_end_where_they_end(x, after_x, y, after_y);
    lemma_decimal_injective(a / 100, b / 100);
    assert(after_x[1] == digit(a / 10 % 10));
    assert(after_y[1] == digit(b / 10 % 10));
    if a % 10 != 0 {
        assert(after_x.len() == 3);
        assert(after_x[2] == digit(a % 10));
    } else {
        assert(after_x.len() == 2);
    }
    if b % 10 != 0 {
        assert(after_y.len() == 3);
        assert(after_y[2] == digit(b % 10));
    } else {
        assert(after_y.len() == 2);
    }
}

/// A record of four members, written out: the members between braces with
/// a comma after each but the last.
proof fn lemma_record_of_four(a: Seq<char>, b: Seq<char>, c: Seq<char>, d: Seq<char>)
    ensures
        record(seq![a, b, c, d]) == (seq!['{'] + a) + ((seq![','] + b) + ((seq![','] + c) + ((seq![
            ',',
        ] + d) + seq!['}']))),
{
    let four = seq![a, b, c, d];
    let three = seq![a, b, c];
    let two = seq![a, b];
    let one = seq![a];
    assert(four.drop_last() =~= three);
    assert(three.drop_last() =~= two);
    assert(two.drop_last() =~= one);
    assert(joined(one) == a);
    assert(joined(two) == a + seq![','] + b);
    assert(joined(three) == joined(two) + seq![','] + c);
    assert(joined(four) == joined(three) + seq![','] + d);
    assert(record(four) =~= (seq!['{'] + a) + ((seq![','] + b) + ((seq![','] + c) + ((seq![','] + d)
        + seq!['}']))));
}

/// The text of a memory record, piece by piece: fixed text around three
/// whole numbers and one percentage.
proof fn lemma_memory_text_pieces(m: MemoryInfo)
    ensures
        memory_text(m) == "{\"total\":"@ + (decimal(m.total as nat) + (",\"used\":"@ + (decimal(
            m.used as nat,
        ) + (",\"available\":"@ + (decimal(m.available as nat) + (",\"usage_percent\":"@ + (
        percent_text(m.usage_percent.hundredths as nat) + seq!['}']))))))),
{
    let total = decimal(m.total as nat);
    let used = decimal(m.used as nat);
    let available = decimal(m.available as nat);
    let usage = percent_text(m.usage_percent.hundredths as nat);
    let a = member("total"@, total);
    let b = member("used"@, used);
    let c = member("available"@, available);
    let d = member("usage_percent"@, usage);
    assert(memory_members(m) =~= seq![a, b, c, d]);
    lemma_record_of_four(a, b, c, d);
    assert(seq!['{'] + a =~= "{\"total\":"@ + total) by {
        reveal_strlit("total");
        reveal_strlit("{\"total\":");
    }
    assert(seq![','] + b =~= ",\"used\":"@ + used) by {
        reveal_strlit("used");
        reveal_strlit(",\"used\":");
    }
    assert(seq![','] + c =~= ",\"available\":"@ + available) by {
        reveal_strlit("available");
        reveal_strlit(",\"available\":");
    }
    assert(seq![','] + d =~= ",\"usage_percent\":"@ + usage) by {
        reveal_strlit("usage_percent");
        reveal_strlit(",\"usage_percent\":");
    }
    assert(memory_text(m) =~= "{\"total\":"@ + (total + (",\"used\":"@ + (used + (
    ",\"available\":"@ + (available + (",\"usage_percent\":"@ + (usage + seq!['}']))))))));
}

/// The same fixed text in front of two texts that are equal leaves two
/// texts that are equal.
proof fn lemma_same_front(front: Seq<char>, x: Seq<char>, y: Seq<char>)
    requires
        front + x == front + y,
    ensures
        x == y,
{
    assert(x =~= (front + x).skip(front.len() as int));
    assert(y =~= (front + y).skip(front.len() as int));
}

/// The text of a memory record tells the record: two records with the same
/// text have the same counters and the same usage.
pub proof fn lemma_memory_text_injective(first: MemoryInfo, second: MemoryInfo)
    requires
        memory_text(first) == memory_text(second),
    ensures
        first == second,
{
    reveal_strlit(",\"used\":");
    reveal_strlit(",\"available\":");
    reveal_strlit(",\"usage_percent\":");
    lemma_memory_text_pieces(first);
    lemma_memory_text_pieces(second);
    lemma_decimal_is_whole_number(first.total as nat);
    lemma_decimal_is_whole_number(second.total as nat);
    lemma_decimal_is_whole_number(first.used as nat);
    lemma_decimal_is_whole_number(second.used as nat);
    lemma_decimal_is_whole_number(first.available as nat);
    lemma_decimal_is_whole_number(second.available as nat);

    let usage_1 = percent_text(first.usage_percent.hundredths as nat) + seq!['}'];
    let usage_2 = percent_text(second.usage_percent.hundredths as nat) + seq!['}'];
    let tail_a1 = ",\"usage_percent\":"@ + usage_1;
    let tail_a2 = ",\"usage_percent\":"@ + usage_2;
    let from_a1 = decimal(first.available as nat) + tail_a1;
    let from_a2 = decimal(second.available as nat) + tail_a2;
    let tail_u1 = ",\"available\":"@ + from_a1;
    let tail_u2 = ",\"available\":"@ + from_a2;
    let from_u1 = decimal(first.used as nat) + tail_u1;
    let from_u2 = decimal(second.used as nat) + tail_u2;
    let tail_t1 = ",\"used\":"@ + from_u1;
    let tail_t2 = ",\"used\":"@ + from_u2;
    let from_t1 = decimal(first.total as nat) + tail_t1;
    let from_t2 = decimal(second.total as nat) + tail_t2;

    lemma_same_front("{\"total\":"@, from_t1, from_t2);
    lemma_digits_end_where_they_end(
        decimal(first.total as nat),
        tail_t1,
        decimal(second.total as nat),
        tail_t2,
    );
    lemma_decimal_injective(first.total as nat, second.total as nat);

    lemma_same_front(",\"used\":"@, from_u1, from_u2);
    lemma_digits_end_where_they_end(
        decimal(first.used as nat),
        tail_u1,
        decimal(second.used as nat),
        tail_u2,
    );
    lemma_decimal_injective(first.used as nat, second.used as nat);

    lemma_same_front(",\"available\":"@, from_a1, from_a2);
    lemma_digits_end_where_they_end(
        decimal(first.available as nat),
        tail_a1,
        decimal(second.available as nat),
        tail_a2,
    );
    lemma_decimal_injective(first.available as nat, second.available as nat);

    lemma_same_front(",\"usage_percent\":"@, usage_1, usage_2);
    assert(percent_text(first.usage_percent.hundredths as nat) =~= usage_1.drop_last());
    assert(percent_text(second.usage_percent.hundredths as nat) =~= usage_2.drop_last());
    lemma_percent_text_injective(
        first.usage_percent.hundredths as nat,
        second.usage_percent.hundredths as nat,
    );
}

} // verus!
