//! Item slots and the tolerant token decoding: one comma-separated token
//! becomes a populated slot or nothing, and a tilde-separated blob becomes an
//! index-stable sequence of optional slots, one per token.

use vstd::prelude::*;

use crate::numeric::{
    all_dec_digits, digits_value, int_value, is_dec_digit, num_body, num_negative, parse_i32_bytes,
    parse_u8_bytes, spec_parse_i32, spec_parse_u8, wellformed_int,
};
use crate::split::{
    count_byte, lemma_split_on_concat, lemma_split_on_len, split_bytes, split_on,
};

verus! {

/// The comma between the fields of one token.
pub const FIELD_SEP: u8 = 44;

/// The tilde between the tokens of the blob.
pub const TOKEN_SEP: u8 = 126;

/// One item stack: a catalog identity, a modifier prefix (0 means none), and
/// a strictly positive count.
#[derive(Clone, Copy, Debug, PartialEq, Eq, Structural)]
pub struct ItemSlot {
    pub item_id: i32,
    pub prefix: u8,
    pub count: i32,
}

/// A slot of a carried row: an item stack plus a favorited marker.
#[derive(Clone, Copy, Debug, PartialEq, Eq, Structural)]
pub struct InventorySlot {
    pub item_id: i32,
    pub prefix: u8,
    pub count: i32,
    pub is_favorite: bool,
}

/// A slot that holds at most one item: identity and prefix, no count.
#[derive(Clone, Copy, Debug, PartialEq, Eq, Structural)]
pub struct SingleItemSlot {
    pub item_id: i32,
    pub prefix: u8,
}

/// Which item ids the catalog resolves: the regular ids 1 through 6144, and
/// the 48 legacy ids -48 through -1 that the catalog remaps into that range.
pub open spec fn spec_known_item_id(id: int) -> bool {
    (1 <= id && id <= 6144) || (-48 <= id && id <= -1)
}

/// Relies on `terra_items::Item::from_id`: it first remaps the legacy ids
/// -48..=-1 to ids within 3480..=3769, then resolves exactly the ids
/// 1..=6144 and yields `None` for every other id.
#[verifier::external_body]
fn item_id_is_known(id: i32) -> (r: bool)
    ensures
        r == spec_known_item_id(id as int),
{
    terra_items::Item::from_id(id).is_some()
}

/// A populated slot: positive count and a known identity.
pub open spec fn item_slot_wf(s: ItemSlot) -> bool {
    s.count > 0 && spec_known_item_id(s.item_id as int)
}

/// What decoding one token yields. A token is populated exactly when it has
/// at least three comma-separated fields whose first three parse as item id,
/// count and prefix, the id is known to the catalog, and the count is
/// strictly positive; every other token is an empty slot, never an error.
pub open spec fn spec_parse_item(t: Seq<u8>) -> Option<ItemSlot> {
    let fs = split_on(t, FIELD_SEP);
    if fs.len() < 3 {
        None
    } else {
        match (spec_parse_i32(fs[0]), spec_parse_i32(fs[1]), spec_parse_u8(fs[2])) {
            (Some(id), Some(count), Some(prefix)) => {
                if count > 0 && spec_known_item_id(id as int) {
                    Some(ItemSlot { item_id: id, prefix, count })
                } else {
                    None
                }
            },
            _ => None,
        }
    }
}

/// Decodes one token, exactly as `spec_parse_item` says: a total function,
/// with every malformed or rejected token degrading to an empty slot.
pub fn parse_item(token: &[u8]) -> (r: Option<ItemSlot>)
    ensures
        r == spec_parse_item(token@),
{
    let fields = split_bytes(token, FIELD_SEP);
    if fields.len() < 3 {
        return None;
    }
    let id = match parse_i32_bytes(fields[0].as_slice()) {
        Some(v) => v,
        None => {
            return None;
        },
    };
    let count = match parse_i32_bytes(fields[1].as_slice()) {
        Some(v) => v,
        None => {
            return None;
        },
    };
    let prefix = match parse_u8_bytes(fields[2].as_slice()) {
        Some(v) => v,
        None => {
            return None;
        },
    };
    if count <= 0 {
        return None;
    }
    if !item_id_is_known(id) {
        return None;
    }
    Some(ItemSlot { item_id: id, prefix, count })
}

/// What decoding the whole blob yields: one optional slot per token, in
/// source order.
pub open spec fn spec_decode(b: Seq<u8>) -> Seq<Option<ItemSlot>> {
    split_on(b, TOKEN_SEP).map_values(|t: Seq<u8>| spec_parse_item(t))
}

/// Decodes the blob into its flat, index-stable slot sequence, exactly as
/// `spec_decode` says. Decoding never fails as a whole: a malformed token
/// contributes an empty slot at its own position.
pub fn parse_inventory(blob: &[u8]) -> (r: Vec<Option<ItemSlot>>)
    ensures
        r@ == spec_decode(blob@),
{
    let tokens = split_bytes(blob, TOKEN_SEP);
    let mut slots: Vec<Option<ItemSlot>> = Vec::new();
    let n = tokens.len();
    let mut i: usize = 0;
    while i < n
        invariant
            0 <= i <= n,
            n == tokens@.len(),
            n == split_on(blob@, TOKEN_SEP).len(),
            forall|j: int|
                0 <= j < n ==> #[trigger] tokens@[j]@ == split_on(blob@, TOKEN_SEP)[j],
            slots@.len() == i,
            forall|j: int| 0 <= j < i ==> #[trigger] slots@[j] == spec_decode(blob@)[j],
        decreases n - i,
    {
        let slot = parse_item(tokens[i].as_slice());
        slots.push(slot);
        i = i + 1;
    }
    assert(slots@ =~= spec_decode(blob@));
    slots
}

/// Every populated slot that decoding can yield is well formed.
pub proof fn lemma_parsed_slot_wf(t: Seq<u8>)
    ensures
        spec_parse_item(t) matches Some(s) ==> item_slot_wf(s),
{
}

/// A token whose count field is zero or negative, or whose id field does not
/// parse or names no catalog item, decodes to an empty slot — never to an
/// error.
pub proof fn lemma_rejected_token_is_empty(t: Seq<u8>)
    requires
        ({
            let fs = split_on(t, FIELD_SEP);
            fs.len() >= 3 ==> {
                ||| (match spec_parse_i32(fs[1]) {
                    Some(c) => c <= 0,
                    None => true,
                })
                ||| (match spec_parse_i32(fs[0]) {
                    Some(id) => !spec_known_item_id(id as int),
                    None => true,
                })
            }
        }),
    ensures
        spec_parse_item(t) is None,
{
}

/// Decoding keeps alignment: a blob of `k` tokens yields exactly `k` slots
/// (one more than there are tilde separators), the slot at each index being
/// the decoding of the token at that index, however many tokens are
/// malformed.
pub proof fn lemma_decode_alignment(b: Seq<u8>)
    ensures
        spec_decode(b).len() == split_on(b, TOKEN_SEP).len(),
        spec_decode(b).len() == count_byte(b, TOKEN_SEP) + 1,
        forall|i: int|
            0 <= i < spec_decode(b).len() ==> #[trigger] spec_decode(b)[i] == spec_parse_item(
                split_on(b, TOKEN_SEP)[i],
            ),
{
    lemma_split_on_len(b, TOKEN_SEP);
}

/// An optional stack viewed as a carried-row slot: the favorited marker of a
/// freshly decoded slot is clear.
pub open spec fn inv_slot_of(o: Option<ItemSlot>) -> Option<InventorySlot> {
    match o {
        Some(s) => Some(
            InventorySlot { item_id: s.item_id, prefix: s.prefix, count: s.count, is_favorite: false },
        ),
        None => None,
    }
}

/// An optional stack viewed as a single-item slot: the count is dropped.
pub open spec fn single_of(o: Option<ItemSlot>) -> Option<SingleItemSlot> {
    match o {
        Some(s) => Some(SingleItemSlot { item_id: s.item_id, prefix: s.prefix }),
        None => None,
    }
}

pub fn to_inventory_slot(o: Option<ItemSlot>) -> (r: Option<InventorySlot>)
    ensures
        r == inv_slot_of(o),
{
    match o {
        Some(s) => Some(
            InventorySlot { item_id: s.item_id, prefix: s.prefix, count: s.count, is_favorite: false },
        ),
        None => None,
    }
}

pub fn to_single_slot(o: Option<ItemSlot>) -> (r: Option<SingleItemSlot>)
    ensures
        r == single_of(o),
{
    match o {
        Some(s) => Some(SingleItemSlot { item_id: s.item_id, prefix: s.prefix }),
        None => None,
    }
}

/// The decimal digits of `n`, most significant first, for `n >= 0`.
pub open spec fn dec_digits(n: int) -> Seq<u8>
    decreases n,
{
    if n < 10 {
        seq![(48 + n) as u8]
    } else {
        dec_digits(n / 10).push((48 + n % 10) as u8)
    }
}

/// The canonical text of a signed value: a minus sign where negative, then
/// its digits.
pub open spec fn spec_encode_i32(n: int) -> Seq<u8> {
    if n < 0 {
        seq![45u8] + dec_digits(-n)
    } else {
        dec_digits(n)
    }
}

/// The canonical token for an item stack: id, count and prefix, separated by
/// commas.
pub open spec fn spec_encode_item(id: i32, count: i32, prefix: u8) -> Seq<u8> {
    spec_encode_i32(id as int) + seq![FIELD_SEP] + spec_encode_i32(count as int) + seq![FIELD_SEP]
        + dec_digits(prefix as int)
}

pub proof fn lemma_dec_digits(n: int)
    requires
        n >= 0,
    ensures
        dec_digits(n).len() >= 1,
        all_dec_digits(dec_digits(n)),
        digits_value(dec_digits(n)) == n,
    decreases n,
{
    if n < 10 {
        assert(dec_digits(n) =~= seq![(48 + n) as u8]);
        assert(dec_digits(n).drop_last() =~= Seq::<u8>::empty());
        assert(digits_value(Seq::<u8>::empty()) == 0);
        assert(((48 + n) as u8) as int == 48 + n);
        assert(digits_value(dec_digits(n)) == ((48 + n) as u8) - 48);
    } else {
        lemma_dec_digits(n / 10);
        vstd::arithmetic::div_mod::lemma_fundamental_div_mod(n, 10);
        let d = dec_digits(n / 10);
        let c = (48 + n % 10) as u8;
        assert(c as int == 48 + n % 10);
        assert(d.push(c).drop_last() =~= d);
        assert(d.push(c).last() == c);
        assert(forall|i: int|
            0 <= i < d.push(c).len() ==> is_dec_digit(#[trigger] d.push(c)[i]));
        assert(digits_value(d.push(c)) == 10 * (n / 10) + n % 10);
        assert(10 * (n / 10) + n % 10 == n);
    }
}

/// The text of a value holds only digits and a possible leading minus: in
/// particular no separator, and it parses back to the value itself.
pub proof fn lemma_encode_i32_parses(v: i32)
    ensures
        spec_parse_i32(spec_encode_i32(v as int)) == Some(v),
        forall|i: int|
            0 <= i < spec_encode_i32(v as int).len() ==> #[trigger] spec_encode_i32(
                v as int,
            )[i] != FIELD_SEP && spec_encode_i32(v as int)[i] != TOKEN_SEP,
{
    let n = v as int;
    if n < 0 {
        lemma_dec_digits(-n);
        let e = seq![45u8] + dec_digits(-n);
        assert(e[0] == 45);
        assert(num_body(e) =~= dec_digits(-n));
        assert(num_negative(e));
        assert(wellformed_int(e));
        assert(int_value(e) == n);
        assert(forall|i: int|
            1 <= i < e.len() ==> is_dec_digit(#[trigger] e[i]));
    } else {
        lemma_dec_digits(n);
        let e = dec_digits(n);
        assert(is_dec_digit(e[0]));
        assert(num_body(e) =~= e);
        assert(!num_negative(e));
        assert(wellformed_int(e));
        assert(int_value(e) == n);
    }
}

pub proof fn lemma_encode_u8_parses(v: u8)
    ensures
        spec_parse_u8(dec_digits(v as int)) == Some(v),
        forall|i: int|
            0 <= i < dec_digits(v as int).len() ==> #[trigger] dec_digits(v as int)[i]
                != FIELD_SEP && dec_digits(v as int)[i] != TOKEN_SEP,
{
    lemma_dec_digits(v as int);
    let e = dec_digits(v as int);
    assert(is_dec_digit(e[0]));
    assert(num_body(e) =~= e);
    assert(wellformed_int(e));
}

/// Round trip of one token: a stack with a positive count and a known id,
/// written in the canonical token form, decodes back to exactly that id,
/// count and prefix.
pub proof fn lemma_item_token_round_trip(id: i32, count: i32, prefix: u8)
    requires
        count > 0,
        spec_known_item_id(id as int),
    ensures
        spec_parse_item(spec_encode_item(id, count, prefix)) == Some(
            ItemSlot { item_id: id, prefix, count },
        ),
{
    let e_id = spec_encode_i32(id as int);
    let e_count = spec_encode_i32(count as int);
    let e_prefix = dec_digits(prefix as int);
    let t = spec_encode_item(id, count, prefix);
    lemma_encode_i32_parses(id);
    lemma_encode_i32_parses(count);
    lemma_encode_u8_parses(prefix);
    assert(t =~= e_id + seq![FIELD_SEP] + (e_count + seq![FIELD_SEP] + e_prefix));
    lemma_split_on_concat(e_id, e_count + seq![FIELD_SEP] + e_prefix, FIELD_SEP);
    lemma_split_on_concat(e_count, e_prefix, FIELD_SEP);
    crate::split::lemma_split_on_no_sep(e_prefix, FIELD_SEP);
    let fs = split_on(t, FIELD_SEP);
    assert(fs =~~= seq![e_id] + (seq![e_count] + seq![e_prefix]));
    assert(fs[0] == e_id && fs[1] == e_count && fs[2] == e_prefix);
}

} // verus!
