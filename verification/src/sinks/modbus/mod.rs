pub mod frame;
pub mod server;

use vstd::prelude::*;

use crate::catalog::{
    bank_words, catalog, catalog_entry, catalog_len, lemma_register_end_bounds,
    lemma_registers_gap, register_end, spec_catalog,
};
use crate::config::WordOrder;
use crate::sinks::modbus::frame::{
    law_read_returns_registers, modbus_response, FC_READ_HOLDING, FC_READ_INPUT,
};

verus! {

/// The high 16 bits of a 32-bit value.
pub open spec fn hi_word(raw: u32) -> u16 {
    (raw / 65536) as u16
}

/// The low 16 bits of a 32-bit value.
pub open spec fn lo_word(raw: u32) -> u16 {
    (raw % 65536) as u16
}

/// The two registers that hold `raw` under `order`, in address order.
pub open spec fn spec_words(raw: u32, order: WordOrder) -> Seq<u16> {
    match order {
        WordOrder::Abcd => seq![hi_word(raw), lo_word(raw)],
        WordOrder::Cdab => seq![lo_word(raw), hi_word(raw)],
    }
}

/// The 32-bit value held by registers `w0`, `w1` (in address order) under `order`.
pub open spec fn spec_from_words(w0: u16, w1: u16, order: WordOrder) -> u32 {
    match order {
        WordOrder::Abcd => (w0 * 65536 + w1) as u32,
        WordOrder::Cdab => (w1 * 65536 + w0) as u32,
    }
}

/// Split a 32-bit value into two 16-bit registers honoring word order.
pub fn words_from_u32(raw: u32, order: WordOrder) -> (res: [u16; 2])
    ensures
        res@ == spec_words(raw, order),
{
    let hi = (raw / 65536) as u16;
    let lo = (raw % 65536) as u16;
    let res = match order {
        WordOrder::Abcd => [hi, lo],
        WordOrder::Cdab => [lo, hi],
    };
    assert(res@ =~= spec_words(raw, order));
    res
}

/// Join two registers (in address order) back into the 32-bit value they hold.
pub fn u32_from_words(w0: u16, w1: u16, order: WordOrder) -> (res: u32)
    ensures
        res == spec_from_words(w0, w1, order),
{
    let (hi, lo) = match order {
        WordOrder::Abcd => (w0, w1),
        WordOrder::Cdab => (w1, w0),
    };
    hi as u32 * 65536 + lo as u32
}

/// Splitting a value into registers and joining them gives the value back.
pub proof fn law_words_roundtrip(raw: u32, order: WordOrder)
    ensures
        spec_from_words(spec_words(raw, order)[0], spec_words(raw, order)[1], order) == raw,
{
}

/// Joining two registers and splitting the value gives the registers back.
pub proof fn law_words_roundtrip_back(w0: u16, w1: u16, order: WordOrder)
    ensures
        spec_words(spec_from_words(w0, w1, order), order) == seq![w0, w1],
{
    let v = spec_from_words(w0, w1, order);
    assert(spec_words(v, order) =~= seq![w0, w1]);
}

/// `Cdab` stores the same two words as `Abcd`, swapped.
pub proof fn law_cdab_swaps_words(raw: u32)
    ensures
        spec_words(raw, WordOrder::Cdab)[0] == spec_words(raw, WordOrder::Abcd)[1],
        spec_words(raw, WordOrder::Cdab)[1] == spec_words(raw, WordOrder::Abcd)[0],
{
}

/// The encoded value of catalog line `i`, or `None` when it is missing
/// (lines past the end of `raw` count as missing).
pub open spec fn raw_at(raw: Seq<Option<u32>>, i: int) -> Option<u32> {
    if 0 <= i < raw.len() {
        raw[i]
    } else {
        None
    }
}

/// Whether register word `w` is one of the two words of catalog line `i`.
pub open spec fn in_slot(w: int, i: int) -> bool {
    w == catalog_entry(i).register || w == catalog_entry(i).register + 1
}

/// The first of the first `n` catalog lines whose slot holds word `w`, or -1.
pub open spec fn owner_upto(w: int, n: int) -> int
    decreases n,
{
    if n <= 0 {
        -1
    } else if owner_upto(w, n - 1) != -1 {
        owner_upto(w, n - 1)
    } else if in_slot(w, n - 1) {
        n - 1
    } else {
        -1
    }
}

/// The catalog line whose slot holds register word `w`, or -1 for a word
/// that no metric uses.
pub open spec fn register_owner(w: int) -> int {
    owner_upto(w, catalog_len() as int)
}

/// Catalog line `i`'s two registers in `bank` hold what `raw` gives it:
/// its encoded value under `order`, or zeros when it is missing.
pub open spec fn slot_holds(bank: Seq<u16>, raw: Seq<Option<u32>>, order: WordOrder, i: int) -> bool {
    let r = catalog_entry(i).register as int;
    match raw_at(raw, i) {
        Some(v) => bank[r] == spec_words(v, order)[0] && bank[r + 1] == spec_words(v, order)[1],
        None => bank[r] == 0 && bank[r + 1] == 0,
    }
}

proof fn lemma_owner_upto(w: int, n: int)
    requires
        0 <= n <= catalog_len(),
    ensures
        owner_upto(w, n) == -1 <==> (forall|k: int| 0 <= k < n ==> !in_slot(w, k)),
        owner_upto(w, n) != -1 ==> 0 <= owner_upto(w, n) < n && in_slot(w, owner_upto(w, n)),
    decreases n,
{
    if n > 0 {
        lemma_owner_upto(w, n - 1);
    }
}

/// Build the full Modbus register bank from the catalog and the encoded
/// value of each catalog line (`raw[i]` belongs to line `i`; `None`, or no
/// entry, leaves its registers at zero).
pub fn build_bank(raw: &Vec<Option<u32>>, order: WordOrder) -> (bank: Vec<u16>)
    ensures
        bank@.len() == register_end(catalog_len() as int),
        forall|i: int| 0 <= i < catalog_len() ==> #[trigger] slot_holds(bank@, raw@, order, i),
        forall|w: int| 0 <= w < bank@.len() && register_owner(w) == -1 ==> #[trigger] bank@[w] == 0,
{
    let n = bank_words();
    let mut bank: Vec<u16> = vec![0u16; n];
    let cat = catalog();
    let mut i: usize = 0;
    while i < cat.len()
        invariant
            cat@ == spec_catalog(),
            0 <= i <= cat.len(),
            bank@.len() == n,
            n == register_end(catalog_len() as int),
            forall|k: int| 0 <= k < i ==> #[trigger] slot_holds(bank@, raw@, order, k),
            forall|w: int|
                0 <= w < bank@.len() && owner_upto(w, i as int) == -1 ==> #[trigger] bank@[w] == 0,
        decreases cat.len() - i,
    {
        let base = cat[i].register as usize;
        proof {
            lemma_register_end_bounds(catalog_len() as int, i as int);
        }
        let ghost before = bank@;
        let value = if i < raw.len() {
            raw[i]
        } else {
            None
        };
        match value {
            Some(v) => {
                let words = words_from_u32(v, order);
                bank.set(base, words[0]);
                bank.set(base + 1, words[1]);
            },
            None => {},
        }
        proof {
            assert forall|k: int| 0 <= k < i implies #[trigger] slot_holds(bank@, raw@, order, k) by {
                lemma_registers_gap(k, i as int);
                assert(slot_holds(before, raw@, order, k));
            }
            lemma_owner_upto(base as int, i as int);
            lemma_owner_upto(base as int + 1, i as int);
            assert forall|k: int| 0 <= k < i implies !in_slot(base as int, k) && !in_slot(
                base as int + 1,
                k,
            ) by {
                lemma_registers_gap(k, i as int);
            }
            assert(slot_holds(bank@, raw@, order, i as int));
            assert forall|w: int|
                0 <= w < bank@.len() && owner_upto(w, i + 1) == -1 implies #[trigger] bank@[w]
                == 0 by {
                lemma_owner_upto(w, i + 1);
                lemma_owner_upto(w, i as int);
                assert(!in_slot(w, i as int));
            }
        }
        i = i + 1;
    }
    bank
}

/// What a client reads back is what was stored: in a bank built from `raw`,
/// a Modbus read of catalog line `i`'s two registers answers with two words
/// that join (under the same word order) into line `i`'s encoded value.
pub proof fn law_read_metric_from_bank(
    bank: Seq<u16>,
    raw: Seq<Option<u32>>,
    order: WordOrder,
    i: int,
    holding_mirror: bool,
    unit_id: u8,
    req: Seq<u8>,
)
    requires
        0 <= i < catalog_len(),
        bank.len() == register_end(catalog_len() as int),
        slot_holds(bank, raw, order, i),
        raw_at(raw, i) is Some,
        req.len() >= 12,
        req[6] == unit_id || req[6] == 0,
        req[7] == FC_READ_INPUT || (req[7] == FC_READ_HOLDING && holding_mirror),
        req[8] * 256 + req[9] == catalog_entry(i).register,
        req[10] == 0,
        req[11] == 2,
    ensures
        ({
            let resp = modbus_response(bank, holding_mirror, unit_id, req);
            spec_from_words(
                (resp[9] * 256 + resp[10]) as u16,
                (resp[11] * 256 + resp[12]) as u16,
                order,
            ) == raw_at(raw, i)->Some_0
        }),
{
    lemma_register_end_bounds(catalog_len() as int, i);
    law_read_returns_registers(bank, holding_mirror, unit_id, req);
    let r = catalog_entry(i).register as int;
    let resp = modbus_response(bank, holding_mirror, unit_id, req);
    assert(resp[9] * 256 + resp[10] == bank[r]);
    assert(resp[11] * 256 + resp[12] == bank[r + 1]);
    law_words_roundtrip(raw_at(raw, i)->Some_0, order);
}

/// `Abcd` stores the high 16 bits in the first register and the low 16 bits
/// in the second; `Cdab` the other way round. Joining reads them back the
/// same way.
pub proof fn law_word_layout(raw: u32, w0: u16, w1: u16)
    ensures
        spec_words(raw, WordOrder::Abcd)[0] * 65536 + spec_words(raw, WordOrder::Abcd)[1] == raw,
        spec_words(raw, WordOrder::Cdab)[1] * 65536 + spec_words(raw, WordOrder::Cdab)[0] == raw,
        spec_words(raw, WordOrder::Abcd).len() == 2,
        spec_words(raw, WordOrder::Cdab).len() == 2,
        spec_from_words(w0, w1, WordOrder::Abcd) == w0 * 65536 + w1,
        spec_from_words(w0, w1, WordOrder::Cdab) == w1 * 65536 + w0,
{
}

} // verus!
