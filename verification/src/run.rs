//! The verdict of a cartridge run, from its serial output or its framebuffer.
use vstd::prelude::*;

use crate::bus::{Bus, BusView};
use crate::cpu::{Cpu, CpuView, Registers};
use crate::serial::SerialView;
use sha2::Digest;

verus! {

/// How often, in M-cycles, the serial output is collected and looked at.
pub const SERIAL_POLL_CYCLES: u64 = 65536;

/// Whether `needle` occurs in `hay` starting at `i`.
pub open spec fn occurs_at(hay: Seq<u8>, needle: Seq<u8>, i: int) -> bool {
    0 <= i && i + needle.len() <= hay.len() && hay.subrange(i, i + needle.len()) == needle
}

/// Whether `needle` occurs anywhere in `hay`.
pub open spec fn contains_spec(hay: Seq<u8>, needle: Seq<u8>) -> bool {
    exists|i: int| occurs_at(hay, needle, i)
}

/// The ASCII bytes of `Passed`.
pub open spec fn passed_text() -> Seq<u8> {
    seq![0x50u8, 0x61, 0x73, 0x73, 0x65, 0x64]
}

/// The ASCII bytes of `Failed`.
pub open spec fn failed_text() -> Seq<u8> {
    seq![0x46u8, 0x61, 0x69, 0x6C, 0x65, 0x64]
}

/// Whether the serial text so far holds a verdict.
pub open spec fn has_verdict_spec(text: Seq<u8>) -> bool {
    contains_spec(text, passed_text()) || contains_spec(text, failed_text())
}

/// What a test ROM reported.
#[derive(Debug, Clone, Copy, PartialEq, Eq)]
pub enum Verdict {
    Passed,
    Failed,
    /// Neither: the ROM did not finish, or this core cannot run it yet.
    NoVerdict,
}

/// The verdict of a serial transcript: `Passed` wins over `Failed`.
pub open spec fn serial_verdict_spec(text: Seq<u8>) -> Verdict {
    if contains_spec(text, passed_text()) {
        Verdict::Passed
    } else if contains_spec(text, failed_text()) {
        Verdict::Failed
    } else {
        Verdict::NoVerdict
    }
}

/// Whether `needle` occurs at `i` in `hay`.
fn matches_at(hay: &[u8], needle: &[u8], i: usize) -> (r: bool)
    requires
        i + needle.len() <= hay.len(),
    ensures
        r == occurs_at(hay@, needle@, i as int),
{
    let mut j: usize = 0;
    while j < needle.len()
        invariant
            i + needle.len() <= hay.len(),
            j <= needle@.len(),
            forall|k: int| 0 <= k < j ==> hay@[i + k] == needle@[k],
        decreases needle@.len() - j,
    {
        if hay[i + j] != needle[j] {
            assert(hay@.subrange(i as int, i + needle@.len())[j as int] != needle@[j as int]);
            return false;
        }
        j = j + 1;
    }
    assert(hay@.subrange(i as int, i + needle@.len()) =~= needle@);
    true
}

/// Whether `needle` occurs anywhere in `hay`.
pub fn contains(hay: &[u8], needle: &[u8]) -> (r: bool)
    ensures
        r == contains_spec(hay@, needle@),
{
    if needle.len() > hay.len() {
        return false;
    }
    let last = hay.len() - needle.len();
    let mut i: usize = 0;
    while i < last
        invariant
            last == hay@.len() - needle@.len(),
            i <= last,
            forall|k: int| 0 <= k < i ==> !occurs_at(hay@, needle@, k),
        decreases last - i,
    {
        if matches_at(hay, needle, i) {
            return true;
        }
        i = i + 1;
    }
    matches_at(hay, needle, last)
}

/// The ASCII bytes of `Passed`.
fn passed_marker() -> (r: [u8; 6])
    ensures
        r@ == passed_text(),
{
    let r = [0x50u8, 0x61, 0x73, 0x73, 0x65, 0x64];
    assert(r@ =~= passed_text());
    r
}

/// The ASCII bytes of `Failed`.
fn failed_marker() -> (r: [u8; 6])
    ensures
        r@ == failed_text(),
{
    let r = [0x46u8, 0x61, 0x69, 0x6C, 0x65, 0x64];
    assert(r@ =~= failed_text());
    r
}

/// Whether the serial text holds `Passed` or `Failed`. Both are ASCII, so
/// looking for them in the raw bytes finds the same as looking in the text
/// with invalid UTF-8 replaced.
pub fn has_verdict(text: &[u8]) -> (r: bool)
    ensures
        r == has_verdict_spec(text@),
{
    let passed = passed_marker();
    let failed = failed_marker();
    contains(text, &passed) || contains(text, &failed)
}

/// The verdict of a serial transcript (see [`serial_verdict_spec`]).
pub fn serial_verdict(text: &[u8]) -> (r: Verdict)
    ensures
        r == serial_verdict_spec(text@),
{
    let passed = passed_marker();
    let failed = failed_marker();
    if contains(text, &passed) {
        Verdict::Passed
    } else if contains(text, &failed) {
        Verdict::Failed
    } else {
        Verdict::NoVerdict
    }
}

/// A match stays a match when more text follows.
pub proof fn lemma_contains_extends(hay: Seq<u8>, more: Seq<u8>, needle: Seq<u8>)
    requires
        contains_spec(hay, needle),
    ensures
        contains_spec(hay + more, needle),
{
    let i = choose|i: int| occurs_at(hay, needle, i);
    assert((hay + more).subrange(i, i + needle.len()) =~= hay.subrange(i, i + needle.len()));
    assert(occurs_at(hay + more, needle, i));
}

/// Whether `(c2, b2)` is `(c, b)` one M-cycle later, as [`Cpu::step`]
/// states it.
pub open spec fn machine_step(c: CpuView, b: Bus, c2: CpuView, b2: Bus) -> bool {
    &&& c2 == c.next(c.bus_byte(&b))
    &&& b2@ == c.write_effect(b@).tick_peripherals()
    &&& c.cartridge_effect(&b, &b2)
}

/// Whether `after` is `before`, or `before` with its serial output taken.
pub open spec fn polled_or_same(before: Bus, after: Bus) -> bool {
    &&& after@ == before@ || after@ == (BusView {
        serial: SerialView { output: Seq::empty(), ..before@.serial },
        ..before@
    })
    &&& after.cartridge_kept(&before)
}

/// The bytes the serial port sent during the first `n` M-cycles of a trace:
/// what each step added to the output queue.
pub open spec fn sent(pre: Seq<Bus>, post: Seq<Bus>, n: nat) -> Seq<u8>
    decreases n,
{
    if n == 0 {
        Seq::empty()
    } else {
        let i = n - 1;
        sent(pre, post, (n - 1) as nat) + post[i]@.serial.output.subrange(
            pre[i]@.serial.output.len() as int,
            post[i]@.serial.output.len() as int,
        )
    }
}

/// Whether `cs`, `pre` and `post` trace `n` M-cycles: before step `i` the
/// machine is `(cs[i], pre[i])`, after it `(cs[i + 1], post[i])`, and between
/// two steps at most the serial output is taken.
pub open spec fn is_trace(cs: Seq<CpuView>, pre: Seq<Bus>, post: Seq<Bus>, n: nat) -> bool {
    &&& cs.len() == n + 1
    &&& pre.len() == n + 1
    &&& post.len() == n
    &&& forall|i: int| 0 <= i < n ==> #[trigger] machine_step(cs[i], pre[i], cs[i + 1], post[i])
    &&& forall|i: int| 0 <= i < n ==> #[trigger] polled_or_same(post[i], pre[i + 1])
}

/// No poll before step `n` found a verdict; at each step `k` with
/// `0 < k < n` that is a multiple of [`SERIAL_POLL_CYCLES`], what the port had
/// sent since `out0` holds no verdict.
pub open spec fn no_verdict_before(out0: Seq<u8>, pre: Seq<Bus>, post: Seq<Bus>, n: nat) -> bool {
    forall|k: int| 0 < k < n && k % (SERIAL_POLL_CYCLES as int) == 0 ==>
        !has_verdict_spec(#[trigger] (out0 + sent(pre, post, k as nat)))
}

/// A poll at step `c` that saw no verdict extends [`no_verdict_before`] past
/// `c`, onto any trace that agrees with the first up to step `c`.
proof fn lemma_no_verdict_extends(
    out0: Seq<u8>,
    pre: Seq<Bus>,
    post: Seq<Bus>,
    pre2: Seq<Bus>,
    post2: Seq<Bus>,
    c: nat,
)
    requires
        no_verdict_before(out0, pre, post, c),
        c > 0 && c % (SERIAL_POLL_CYCLES as nat) == 0 ==> !has_verdict_spec(out0 + sent(pre, post, c)),
        c + 1 <= pre.len(),
        c <= post.len(),
        c + 1 <= pre2.len(),
        c <= post2.len(),
        forall|i: int| 0 <= i <= c ==> pre2[i] == pre[i],
        forall|i: int| 0 <= i < c ==> post2[i] == post[i],
    ensures
        no_verdict_before(out0, pre2, post2, c + 1),
{
    assert forall|k: int| 0 < k < c + 1 && k % (SERIAL_POLL_CYCLES as int) == 0 implies
        !has_verdict_spec(#[trigger] (out0 + sent(pre2, post2, k as nat))) by {
        lemma_sent_prefix(pre, post, pre2, post2, k as nat);
        if k < c {
            assert(!has_verdict_spec(out0 + sent(pre, post, k as nat)));
        }
    }
}

/// `sent` looks only at the first `n` steps.
proof fn lemma_sent_prefix(pre: Seq<Bus>, post: Seq<Bus>, pre2: Seq<Bus>, post2: Seq<Bus>, n: nat)
    requires
        n <= pre.len(),
        n <= post.len(),
        n <= pre2.len(),
        n <= post2.len(),
        forall|i: int| 0 <= i < n ==> pre2[i] == pre[i] && post2[i] == post[i],
    ensures
        sent(pre2, post2, n) == sent(pre, post, n),
    decreases n,
{
    if n > 0 {
        lemma_sent_prefix(pre, post, pre2, post2, (n - 1) as nat);
    }
}

/// How a headless run ended.
pub struct RunResult {
    /// M-cycles stepped.
    pub cycles: u64,
    /// Everything the serial port sent, when the run looked for a serial
    /// verdict; empty otherwise.
    pub serial: Vec<u8>,
}

/// Steps the machine for at most `max_cycles` M-cycles. It stops early when
/// the CPU locks up, and, with `by_serial`, when the serial output (collected
/// every [`SERIAL_POLL_CYCLES`] M-cycles) holds a verdict. It stops at the
/// first poll that finds one, and no earlier poll found one. With `by_serial`
/// whatever the port sent after the last poll is collected at the end.
#[verifier::rlimit(50)]
#[verifier::spinoff_prover]
pub fn run(cpu: &mut Cpu, bus: &mut Bus, max_cycles: u64, by_serial: bool) -> (r: RunResult)
    requires
        old(bus)@.wf(),
    ensures
        final(bus)@.wf(),
        r.cycles <= max_cycles,
        r.cycles < max_cycles ==> final(cpu)@.lockup() is Some || (by_serial && has_verdict_spec(
            r.serial@,
        )),
        r.cycles < max_cycles && final(cpu)@.lockup() is None ==> r.cycles > 0 && r.cycles % SERIAL_POLL_CYCLES == 0,
        !by_serial ==> r.serial@.len() == 0,
        by_serial ==> final(bus)@.serial.output.len() == 0,
        exists|cs: Seq<CpuView>, pre: Seq<Bus>, post: Seq<Bus>|
            #![trigger is_trace(cs, pre, post, r.cycles as nat)]
            {
                &&& is_trace(cs, pre, post, r.cycles as nat)
                &&& cs[0] == old(cpu)@ && pre[0] == *old(bus)
                &&& cs[r.cycles as int] == final(cpu)@
                &&& polled_or_same(pre[r.cycles as int], *final(bus))
                &&& r.serial@ + final(bus)@.serial.output == old(bus)@.serial.output + sent(pre, post, r.cycles as nat)
                &&& by_serial ==> no_verdict_before(old(bus)@.serial.output, pre, post, r.cycles as nat)
            },
{
    let ghost cpu0 = cpu@;
    let ghost bus0 = *bus;
    let ghost mut cs: Seq<CpuView> = seq![cpu@];
    let ghost mut pre: Seq<Bus> = seq![*bus];
    let ghost mut post: Seq<Bus> = Seq::empty();
    let mut cycles: u64 = 0;
    let mut serial: Vec<u8> = Vec::new();
    proof {
        assert(serial@ + bus@.serial.output =~= bus0@.serial.output + sent(pre, post, 0));
    }
    while cycles < max_cycles
        invariant_except_break
            by_serial && cycles > 0 && cycles % SERIAL_POLL_CYCLES == 0 ==> !has_verdict_spec(
                bus0@.serial.output + sent(pre, post, cycles as nat),
            ),
        invariant
            bus@.wf(),
            cycles <= max_cycles,
            !by_serial ==> serial@.len() == 0,
            !by_serial ==> bus@.serial.output == bus0@.serial.output + sent(pre, post, cycles as nat),
            is_trace(cs, pre, post, cycles as nat),
            cs[0] == cpu0,
            pre[0] == bus0,
            cs[cycles as int] == cpu@,
            pre[cycles as int] == *bus,
            serial@ + bus@.serial.output == bus0@.serial.output + sent(pre, post, cycles as nat),
            by_serial ==> no_verdict_before(bus0@.serial.output, pre, post, cycles as nat),
        ensures
            cycles < max_cycles ==> cpu@.lockup() is Some || (by_serial && has_verdict_spec(serial@)),
            cycles < max_cycles && cpu@.lockup() is None ==> cycles > 0 && cycles % SERIAL_POLL_CYCLES == 0,
        decreases max_cycles - cycles,
    {
        if cpu.lockup().is_some() {
            break;
        }
        let ghost c0 = cpu@;
        let ghost b0 = *bus;
        let ghost pre_top = pre;
        let ghost post_top = post;
        let ghost serial0 = serial@;
        cpu.step(bus);
        let ghost stepped = *bus;
        proof {
            crate::cpu::lemma_step_appends_serial(c0, b0@);
            let n = cycles as nat;
            let cs2 = cs.push(cpu@);
            let post2 = post.push(stepped);
            assert(machine_step(cs2[n as int], pre[n as int], cs2[(n + 1) as int], post2[n as int]));
            lemma_sent_prefix(pre, post, pre, post2, n);
            cs = cs2;
            post = post2;
        }
        cycles = cycles + 1;
        let polled = by_serial && cycles % SERIAL_POLL_CYCLES == 0;
        if polled {
            let mut out = bus.take_serial_output();
            serial.append(&mut out);
        }
        proof {
            let n = (cycles - 1) as nat;
            let pushed = stepped@.serial.output.subrange(b0@.serial.output.len() as int, stepped@.serial.output.len() as int);
            assert(stepped@.serial.output =~= b0@.serial.output + pushed);
            let pre2 = pre.push(*bus);
            lemma_sent_prefix(pre, post, pre2, post, n + 1);
            assert(sent(pre2, post, n + 1) == sent(pre2, post, n) + pushed);
            lemma_sent_prefix(pre, post, pre2, post, n);
            let done = sent(pre2, post, n);
            assert(serial0 + b0@.serial.output == bus0@.serial.output + done);
            if polled {
                assert(serial@ =~= serial0 + stepped@.serial.output);
                assert(bus@.serial.output =~= Seq::<u8>::empty());
            } else {
                assert(serial@ == serial0);
                assert(bus@.serial.output == stepped@.serial.output);
            }
            assert(serial@ + bus@.serial.output =~= (serial0 + b0@.serial.output) + pushed);
            assert(bus0@.serial.output + sent(pre2, post, n + 1) =~= (bus0@.serial.output + done) + pushed);
            assert(polled_or_same(post[n as int], pre2[(n + 1) as int]));
            pre = pre2;
            if by_serial {
                lemma_no_verdict_extends(bus0@.serial.output, pre_top, post_top, pre, post, n);
            }
            if polled {
                assert(serial@ =~= bus0@.serial.output + sent(pre, post, cycles as nat));
            }
        }
        if polled && has_verdict(serial.as_slice()) {
            break;
        }
    }
    let ghost last = *bus;
    if by_serial {
        let ghost before = serial@;
        let mut out = bus.take_serial_output();
        serial.append(&mut out);
        proof {
            assert(serial@ + bus@.serial.output =~= before + last@.serial.output);
            if has_verdict_spec(before) {
                if contains_spec(before, passed_text()) {
                    lemma_contains_extends(before, serial@.subrange(before.len() as int, serial@.len() as int), passed_text());
                    assert(before + serial@.subrange(before.len() as int, serial@.len() as int) =~= serial@);
                } else {
                    lemma_contains_extends(before, serial@.subrange(before.len() as int, serial@.len() as int), failed_text());
                    assert(before + serial@.subrange(before.len() as int, serial@.len() as int) =~= serial@);
                }
            }
        }
    }
    proof {
        assert(polled_or_same(pre[cycles as int], *bus));
        assert(is_trace(cs, pre, post, cycles as nat));
        assert(by_serial ==> no_verdict_before(bus0@.serial.output, pre, post, cycles as nat));
        assert(cs[0] == cpu0 && pre[0] == bus0);
        assert(cs[cycles as int] == cpu@);
        assert(serial@ + bus@.serial.output == bus0@.serial.output + sent(pre, post, cycles as nat));
    }
    RunResult { cycles, serial }
}

/// The SHA-256 digest of `data`, as the `sha2` crate computes it.
pub uninterp spec fn sha256_digest(data: Seq<u8>) -> Seq<u8>;

/// Calls `sha2::Sha256::digest`. Trusted: the result is the digest of
/// `data` and nothing else, and it is 32 bytes long (the output size of
/// `Sha256` is `U32`).
#[verifier::external_body]
fn sha256(data: &[u8]) -> (r: Vec<u8>)
    ensures
        r@ == sha256_digest(data@),
        r@.len() == 32,
{
    sha2::Sha256::digest(data).to_vec()
}

/// The lowercase hex digit of `n` (below 16).
pub open spec fn hex_digit(n: int) -> u8 {
    if n < 10 { (0x30 + n) as u8 } else { (0x61 + n - 10) as u8 }
}

/// `bytes` in lowercase hex, two ASCII digits per byte, high nibble first.
pub open spec fn hex_spec(bytes: Seq<u8>) -> Seq<u8> {
    Seq::new(2 * bytes.len(), |i: int| if i % 2 == 0 { hex_digit(bytes[i / 2] as int / 16) } else { hex_digit(bytes[i / 2] as int % 16) })
}

fn hex_char(n: u8) -> (r: u8)
    requires
        n < 16,
    ensures
        r == hex_digit(n as int),
{
    if n < 10 { 0x30 + n } else { 0x61 + n - 10 }
}

/// `bytes` in lowercase hex (see [`hex_spec`]).
pub fn lower_hex(bytes: &[u8]) -> (r: Vec<u8>)
    ensures
        r@ == hex_spec(bytes@),
{
    let mut out: Vec<u8> = Vec::new();
    let mut i: usize = 0;
    while i < bytes.len()
        invariant
            i <= bytes@.len(),
            out@.len() == 2 * i,
            forall|k: int| 0 <= k < 2 * i ==> out@[k] == hex_spec(bytes@)[k],
        decreases bytes@.len() - i,
    {
        let b = bytes[i];
        out.push(hex_char(b / 16));
        out.push(hex_char(b % 16));
        i = i + 1;
    }
    assert(out@ =~= hex_spec(bytes@));
    out
}

/// The SHA-256 of the framebuffer, in lowercase hex.
pub fn framebuffer_hash(bus: &Bus) -> (r: Vec<u8>)
    ensures
        r@ == hex_spec(sha256_digest(bus@.ppu.framebuffer)),
{
    let digest = sha256(bus.framebuffer());
    lower_hex(digest.as_slice())
}

/// Whether the framebuffer's hash is `expected` (lowercase hex, as
/// [`framebuffer_hash`] gives it).
pub fn framebuffer_matches(bus: &Bus, expected: &[u8]) -> (r: bool)
    ensures
        r == (hex_spec(sha256_digest(bus@.ppu.framebuffer)) == expected@),
{
    let hash = framebuffer_hash(bus);
    same_bytes(hash.as_slice(), expected)
}

/// Whether two byte strings are equal.
fn same_bytes(a: &[u8], b: &[u8]) -> (r: bool)
    ensures
        r == (a@ == b@),
{
    if a.len() != b.len() {
        return false;
    }
    let mut i: usize = 0;
    while i < a.len()
        invariant
            a@.len() == b@.len(),
            i <= a@.len(),
            forall|k: int| 0 <= k < i ==> a@[k] == b@[k],
        decreases a@.len() - i,
    {
        if a[i] != b[i] {
            return false;
        }
        i = i + 1;
    }
    assert(a@ =~= b@);
    true
}

/// Over one step of a trace, the cartridge keeps its answers unless the
/// step was `LD (HL),r`.
proof fn lemma_trace_keeps_cartridge(cs: Seq<CpuView>, pre: Seq<Bus>, post: Seq<Bus>, n: nat, i: int)
    requires
        is_trace(cs, pre, post, n),
        0 <= i < n,
        !(cs[i].state is StoreToHl),
    ensures
        forall|a: u16| #[trigger] pre[i + 1].cartridge_answer(a) == pre[i].cartridge_answer(a),
{
    assert(machine_step(cs[i], pre[i], cs[i + 1], post[i]));
    assert(polled_or_same(post[i], pre[i + 1]));
    crate::bus::lemma_cartridge_kept_transitive(&pre[i + 1], &post[i], &pre[i]);
}

/// A `JP u16` fetched from the cartridge runs as the cartridge holds it:
/// four M-cycles from an instruction boundary at `pc`, with `$C3` and the
/// operand at `pc`-`pc + 2` in the ROM window, leave the CPU between
/// instructions at the operand.
pub proof fn law_jp_from_the_cartridge(cs: Seq<CpuView>, pre: Seq<Bus>, post: Seq<Bus>)
    requires
        is_trace(cs, pre, post, 4),
        cs[0].state is Fetch,
        cs[0].registers.pc <= 0x7FFD,
        pre[0].read_spec(cs[0].registers.pc) == 0xC3,
    ensures
        cs[4].state is Fetch,
        cs[4].registers.pc == pre[0].read_spec((cs[0].registers.pc + 1) as u16)
            + 256 * pre[0].read_spec((cs[0].registers.pc + 2) as u16),
        cs[4].registers == (Registers { pc: cs[4].registers.pc, ..cs[0].registers }),
{
    let pc = cs[0].registers.pc;
    let low = pre[0].read_spec((pc + 1) as u16);
    let high = pre[0].read_spec((pc + 2) as u16);
    assert(machine_step(cs[0int], pre[0int], cs[0int + 1], post[0int]));
    assert(cs[1] == cs[0].next(0xC3));
    lemma_trace_keeps_cartridge(cs, pre, post, 4, 0);
    assert(machine_step(cs[1int], pre[1int], cs[1int + 1], post[1int]));
    assert(cs[2] == cs[1].next(low));
    lemma_trace_keeps_cartridge(cs, pre, post, 4, 1);
    assert(machine_step(cs[2int], pre[2int], cs[2int + 1], post[2int]));
    assert(cs[3] == cs[2].next(high));
    lemma_trace_keeps_cartridge(cs, pre, post, 4, 2);
    assert(machine_step(cs[3int], pre[3int], cs[3int + 1], post[3int]));
    crate::cpu::lemma_little_endian(low, high);
}

/// Once locked, a traced CPU stays as it was.
proof fn lemma_locked_stays(cs: Seq<CpuView>, pre: Seq<Bus>, post: Seq<Bus>, n: nat, i: int)
    requires
        is_trace(cs, pre, post, n),
        1 <= i <= n,
        cs[1].state is Locked,
    ensures
        cs[i] == cs[1],
    decreases i,
{
    if i > 1 {
        lemma_locked_stays(cs, pre, post, n, i - 1);
        let j = i - 1;
        assert(machine_step(cs[j], pre[j], cs[j + 1], post[j]));
    }
}

/// An opcode the SM83 does not have, fetched from the cartridge, locks the
/// CPU up for good: after any number of M-cycles it stays locked on that
/// opcode, with `PC` just past it and every other register unchanged.
pub proof fn law_illegal_opcode_from_the_cartridge(cs: Seq<CpuView>, pre: Seq<Bus>, post: Seq<Bus>, n: nat)
    requires
        is_trace(cs, pre, post, n),
        n >= 1,
        cs[0].state is Fetch,
        crate::cpu::is_illegal_opcode(pre[0].read_spec(cs[0].registers.pc)),
    ensures
        cs[n as int].lockup() == Some(crate::cpu::Lockup::IllegalOpcode(pre[0].read_spec(cs[0].registers.pc))),
        cs[n as int].registers == (Registers { pc: crate::cpu::next_pc(cs[0].registers.pc), ..cs[0].registers }),
{
    assert(machine_step(cs[0int], pre[0int], cs[0int + 1], post[0int]));
    lemma_locked_stays(cs, pre, post, n, n as int);
}

} // verus!
