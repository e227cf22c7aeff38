//! Read-only Modbus TCP request handling over a fixed register bank.
//! Supports FC03 (Read Holding Registers) and FC04 (Read Input Registers).
use vstd::prelude::*;

verus! {

/// Function code: Read Holding Registers.
pub const FC_READ_HOLDING: u8 = 0x03;

/// Function code: Read Input Registers.
pub const FC_READ_INPUT: u8 = 0x04;

/// Exception code: illegal function.
pub const EXC_ILLEGAL_FUNCTION: u8 = 0x01;

/// Exception code: illegal data address.
pub const EXC_ILLEGAL_ADDRESS: u8 = 0x02;

/// Exception code: illegal data value.
pub const EXC_ILLEGAL_VALUE: u8 = 0x03;

/// Most registers one read request may ask for.
pub const MAX_READ_QTY: u16 = 125;

/// The high (first transmitted) byte of a register word.
pub open spec fn word_hi(w: u16) -> u8 {
    (w / 256) as u8
}

/// The low (second transmitted) byte of a register word.
pub open spec fn word_lo(w: u16) -> u8 {
    (w % 256) as u8
}

/// The big-endian value of two bytes.
pub open spec fn be16(hi: u8, lo: u8) -> int {
    hi * 256 + lo
}

/// Register words laid out big-endian, two bytes per word.
pub open spec fn words_be(ws: Seq<u16>) -> Seq<u8> {
    Seq::new(
        (2 * ws.len()) as nat,
        |k: int|
            if k % 2 == 0 {
                word_hi(ws[k / 2])
            } else {
                word_lo(ws[k / 2])
            },
    )
}

/// A response ADU: the request's transaction id, protocol id 0, the length
/// of what follows the length field (unit id + PDU), the request's unit id,
/// then the response PDU.
pub open spec fn mbap_frame(req: Seq<u8>, pdu: Seq<u8>) -> Seq<u8> {
    seq![
        req[0],
        req[1],
        0u8,
        0u8,
        ((pdu.len() + 1) / 256) as u8,
        ((pdu.len() + 1) % 256) as u8,
        req[6],
    ] + pdu
}

/// An exception response to the request's function code.
pub open spec fn exception_frame(req: Seq<u8>, code: u8) -> Seq<u8> {
    mbap_frame(req, seq![req[7] | 0x80u8, code])
}

/// First register a read request asks for.
pub open spec fn read_start(req: Seq<u8>) -> int {
    be16(req[8], req[9])
}

/// Number of registers a read request asks for.
pub open spec fn read_qty(req: Seq<u8>) -> int {
    be16(req[10], req[11])
}

/// The answer to one request ADU (MBAP header + PDU); empty means "send
/// nothing". Requests for another unit (other than the wildcard 0) are
/// ignored; FC03 is served only when `holding_mirror` holds.
pub open spec fn modbus_response(
    bank: Seq<u16>,
    holding_mirror: bool,
    unit_id: u8,
    req: Seq<u8>,
) -> Seq<u8> {
    if req.len() < 8 {
        seq![]
    } else if req[6] != unit_id && req[6] != 0 {
        seq![]
    } else if req[7] == FC_READ_HOLDING && !holding_mirror {
        exception_frame(req, EXC_ILLEGAL_FUNCTION)
    } else if req[7] == FC_READ_HOLDING || req[7] == FC_READ_INPUT {
        if req.len() < 12 {
            exception_frame(req, EXC_ILLEGAL_VALUE)
        } else if read_qty(req) == 0 || read_qty(req) > MAX_READ_QTY {
            exception_frame(req, EXC_ILLEGAL_VALUE)
        } else if read_start(req) + read_qty(req) > bank.len() {
            exception_frame(req, EXC_ILLEGAL_ADDRESS)
        } else {
            mbap_frame(
                req,
                seq![req[7], (2 * read_qty(req)) as u8] + words_be(
                    bank.subrange(read_start(req), read_start(req) + read_qty(req)),
                ),
            )
        }
    } else {
        exception_frame(req, EXC_ILLEGAL_FUNCTION)
    }
}

fn make_frame(tx0: u8, tx1: u8, unit: u8, pdu: &Vec<u8>) -> (out: Vec<u8>)
    requires
        pdu.len() < 65535,
    ensures
        out@ == seq![
            tx0,
            tx1,
            0u8,
            0u8,
            ((pdu@.len() + 1) / 256) as u8,
            ((pdu@.len() + 1) % 256) as u8,
            unit,
        ] + pdu@,
{
    let len: usize = pdu.len() + 1;
    let mut out: Vec<u8> = Vec::new();
    out.push(tx0);
    out.push(tx1);
    out.push(0);
    out.push(0);
    out.push((len / 256) as u8);
    out.push((len % 256) as u8);
    out.push(unit);
    let ghost head = out@;
    let mut i: usize = 0;
    while i < pdu.len()
        invariant
            0 <= i <= pdu.len(),
            head.len() == 7,
            out@ == head + pdu@.subrange(0, i as int),
        decreases pdu.len() - i,
    {
        out.push(pdu[i]);
        i = i + 1;
        assert(out@ =~= head + pdu@.subrange(0, i as int));
    }
    assert(pdu@.subrange(0, pdu.len() as int) =~= pdu@);
    out
}

fn exception(req: &[u8], code: u8) -> (out: Vec<u8>)
    requires
        req@.len() >= 8,
    ensures
        out@ == exception_frame(req@, code),
{
    let mut pdu: Vec<u8> = Vec::new();
    pdu.push(req[7] | 0x80u8);
    pdu.push(code);
    assert(pdu@ =~= seq![req@[7] | 0x80u8, code]);
    make_frame(req[0], req[1], req[6], &pdu)
}

/// Handle one full ADU (MBAP header + PDU) and return the full response ADU,
/// or an empty vector when nothing is to be sent.
/// `holding_mirror` = whether FC03 is served (else FC03 -> illegal function).
pub fn handle_adu(bank: &[u16], holding_mirror: bool, unit_id: u8, req: &[u8]) -> (resp: Vec<u8>)
    ensures
        resp@ == modbus_response(bank@, holding_mirror, unit_id, req@),
{
    if req.len() < 8 {
        return Vec::new();
    }
    let req_unit = req[6];
    let fc = req[7];
    if req_unit != unit_id && req_unit != 0 {
        return Vec::new();
    }
    if fc == FC_READ_HOLDING && !holding_mirror {
        return exception(req, EXC_ILLEGAL_FUNCTION);
    }
    if fc == FC_READ_HOLDING || fc == FC_READ_INPUT {
        if req.len() < 12 {
            return exception(req, EXC_ILLEGAL_VALUE);
        }
        let start: usize = req[8] as usize * 256 + req[9] as usize;
        let qty: usize = req[10] as usize * 256 + req[11] as usize;
        if qty == 0 || qty > MAX_READ_QTY as usize {
            return exception(req, EXC_ILLEGAL_VALUE);
        }
        if start + qty > bank.len() {
            return exception(req, EXC_ILLEGAL_ADDRESS);
        }
        let mut pdu: Vec<u8> = Vec::new();
        pdu.push(fc);
        pdu.push((qty * 2) as u8);
        let ghost words = bank@.subrange(start as int, (start + qty) as int);
        let mut i: usize = 0;
        while i < qty
            invariant
                0 <= i <= qty <= 125,
                start <= 65535,
                start + qty <= bank@.len(),
                words == bank@.subrange(start as int, (start + qty) as int),
                pdu@ == seq![fc, (2 * qty) as u8] + words_be(words.subrange(0, i as int)),
            decreases qty - i,
        {
            let w = bank[start + i];
            let ghost before = pdu@;
            pdu.push((w / 256) as u8);
            pdu.push((w % 256) as u8);
            i = i + 1;
            proof {
                let prev = words_be(words.subrange(0, i - 1));
                let next = words_be(words.subrange(0, i as int));
                assert(next =~= prev.push(word_hi(w)).push(word_lo(w)));
                assert(pdu@ =~= seq![fc, (2 * qty) as u8] + next);
            }
        }
        assert(words.subrange(0, qty as int) =~= words);
        return make_frame(req[0], req[1], req_unit, &pdu);
    }
    exception(req, EXC_ILLEGAL_FUNCTION)
}

/// A register word is recovered from its two transmitted bytes.
pub proof fn lemma_word_bytes(w: u16)
    ensures
        be16(word_hi(w), word_lo(w)) == w,
{
}

/// Every answer that is sent is a well-formed MBAP frame: it echoes the
/// transaction id and unit id, carries protocol id 0, its length field
/// counts exactly the bytes after it, and its function byte is either the
/// request's function code (a normal answer) or that code with the high bit
/// set, followed by an exception code 1, 2 or 3. It never exceeds the 260
/// bytes of a Modbus TCP ADU.
pub proof fn law_response_frame(bank: Seq<u16>, holding_mirror: bool, unit_id: u8, req: Seq<u8>)
    ensures
        ({
            let resp = modbus_response(bank, holding_mirror, unit_id, req);
            resp.len() > 0 ==> {
                &&& 9 <= resp.len() <= 260
                &&& resp[0] == req[0]
                &&& resp[1] == req[1]
                &&& resp[2] == 0
                &&& resp[3] == 0
                &&& resp[4] * 256 + resp[5] == resp.len() - 6
                &&& resp[6] == req[6]
                &&& resp[7] == req[7] || (resp[7] == req[7] | 0x80u8 && resp.len() == 9 && 1
                    <= resp[8] <= 3)
            }
        }),
{
    let resp = modbus_response(bank, holding_mirror, unit_id, req);
    if resp.len() > 0 {
        assert(resp[4] as int * 256 + resp[5] as int == resp.len() - 6);
    }
}

/// Requests addressed to another unit (other than the wildcard 0) get no
/// answer at all.
pub proof fn law_foreign_unit_ignored(bank: Seq<u16>, holding_mirror: bool, unit_id: u8, req: Seq<u8>)
    requires
        req.len() >= 8,
        req[6] != unit_id,
        req[6] != 0,
    ensures
        modbus_response(bank, holding_mirror, unit_id, req) == Seq::<u8>::empty(),
{
}

/// A well-formed read of `qty` registers from `start`, inside the bank,
/// returns exactly those registers, big-endian, after the function code and
/// the byte count `2 * qty`, in a frame whose length field is `3 + 2 * qty`.
pub proof fn law_read_returns_registers(
    bank: Seq<u16>,
    holding_mirror: bool,
    unit_id: u8,
    req: Seq<u8>,
)
    requires
        req.len() >= 12,
        req[6] == unit_id || req[6] == 0,
        req[7] == 4 || (req[7] == 3 && holding_mirror),
        1 <= req[10] * 256 + req[11] <= 125,
        req[8] * 256 + req[9] + req[10] * 256 + req[11] <= bank.len(),
    ensures
        ({
            let resp = modbus_response(bank, holding_mirror, unit_id, req);
            let start = req[8] * 256 + req[9];
            let qty = req[10] * 256 + req[11];
            &&& resp.len() == 9 + 2 * qty
            &&& resp[0] == req[0]
            &&& resp[1] == req[1]
            &&& resp[2] == 0
            &&& resp[3] == 0
            &&& resp[4] * 256 + resp[5] == 3 + 2 * qty
            &&& resp[6] == req[6]
            &&& resp[7] == req[7]
            &&& resp[8] == 2 * qty
            &&& forall|j: int|
                start <= j < start + qty ==> resp[9 + 2 * (j - start)] * 256 + resp[10 + 2 * (j
                    - start)] == #[trigger] bank[j]
        }),
{
    let resp = modbus_response(bank, holding_mirror, unit_id, req);
    let start = read_start(req);
    let qty = read_qty(req);
    let words = bank.subrange(start, start + qty);
    assert forall|j: int| start <= j < start + qty implies resp[9 + 2 * (j - start)] * 256 + resp[10
        + 2 * (j - start)] == #[trigger] bank[j] by {
        let k = j - start;
        assert(resp[9 + 2 * k] == words_be(words)[2 * k]);
        assert(resp[10 + 2 * k] == words_be(words)[2 * k + 1]);
        assert(words[k] == bank[j]);
        lemma_word_bytes(bank[j]);
    }
}

/// The exception answer with `code` to a request: the request's transaction
/// id, protocol 0, length 3, the request's unit id, its function code with
/// the high bit set, then `code`.
pub open spec fn exception_bytes(req: Seq<u8>, code: u8) -> Seq<u8> {
    seq![req[0], req[1], 0u8, 0u8, 0u8, 3u8, req[6], req[7] | 0x80u8, code]
}

/// Every refused request for this unit gets exactly one exception answer,
/// and which one depends only on the request:
/// FC03 with the mirror off, or any function other than FC03/FC04, gets 01
/// (illegal function); a read shorter than 12 bytes or asking for 0 or more
/// than 125 registers gets 03 (illegal data value); a read of 1..=125
/// registers that runs past the end of the bank gets 02 (illegal data
/// address), wherever it starts. Requests shorter than 8 bytes get nothing.
pub proof fn law_exception_answers(bank: Seq<u16>, holding_mirror: bool, unit_id: u8, req: Seq<u8>)
    ensures
        req.len() < 8 ==> modbus_response(bank, holding_mirror, unit_id, req) == Seq::<u8>::empty(),
        req.len() >= 8 && (req[6] == unit_id || req[6] == 0) ==> {
            let resp = modbus_response(bank, holding_mirror, unit_id, req);
            let is_read = req[7] == 4 || (req[7] == 3 && holding_mirror);
            &&& (req[7] == 3 && !holding_mirror) ==> resp == exception_bytes(req, 1)
            &&& (req[7] != 3 && req[7] != 4) ==> resp == exception_bytes(req, 1)
            &&& (is_read && req.len() < 12) ==> resp == exception_bytes(req, 3)
            &&& (is_read && req.len() >= 12 && (req[10] * 256 + req[11] == 0 || req[10] * 256
                + req[11] > 125)) ==> resp == exception_bytes(req, 3)
            &&& (is_read && req.len() >= 12 && 1 <= req[10] * 256 + req[11] <= 125 && req[8]
                * 256 + req[9] + req[10] * 256 + req[11] > bank.len()) ==> resp
                == exception_bytes(req, 2)
        },
{
    if req.len() >= 8 && (req[6] == unit_id || req[6] == 0) {
        let resp = modbus_response(bank, holding_mirror, unit_id, req);
        assert(seq![req[7] | 0x80u8, 1u8].len() + 1 == 3);
        assert(exception_frame(req, 1) =~= exception_bytes(req, 1));
        assert(exception_frame(req, 2) =~= exception_bytes(req, 2));
        assert(exception_frame(req, 3) =~= exception_bytes(req, 3));
    }
}

/// With the holding mirror on, Read Holding Registers (FC03) answers exactly
/// as Read Input Registers (FC04) does, but for the function byte.
pub proof fn law_holding_mirrors_input(bank: Seq<u16>, unit_id: u8, req: Seq<u8>)
    requires
        req.len() >= 8,
    ensures
        ({
            let r3 = modbus_response(bank, true, unit_id, req.update(7, FC_READ_HOLDING));
            let r4 = modbus_response(bank, true, unit_id, req.update(7, FC_READ_INPUT));
            &&& r3.len() == r4.len()
            &&& forall|k: int| 0 <= k < r3.len() && k != 7 ==> r3[k] == r4[k]
        }),
{
    let q3 = req.update(7, FC_READ_HOLDING);
    let q4 = req.update(7, FC_READ_INPUT);
    if req.len() >= 12 {
        assert(q3[8] == q4[8] && q3[9] == q4[9] && q3[10] == q4[10] && q3[11] == q4[11]);
        assert(read_start(q3) == read_start(q4));
        assert(read_qty(q3) == read_qty(q4));
    }
    let r3 = modbus_response(bank, true, unit_id, q3);
    let r4 = modbus_response(bank, true, unit_id, q4);
    assert forall|k: int| 0 <= k < r3.len() && k != 7 implies r3[k] == r4[k] by {
        if k < 7 {
        } else {
        }
    }
}

/// With the holding mirror off, every FC03 request for this unit is refused
/// with exception 01 (illegal function).
pub proof fn law_holding_disabled_refused(bank: Seq<u16>, unit_id: u8, req: Seq<u8>)
    requires
        req.len() >= 8,
        req[6] == unit_id || req[6] == 0,
        req[7] == FC_READ_HOLDING,
    ensures
        modbus_response(bank, false, unit_id, req) == exception_frame(req, EXC_ILLEGAL_FUNCTION),
{
}

} // verus!
