//! The inventory store: a mapping from item identifiers to inventory
//! records, plus an append-only audit log.

use crate::text;
use std::collections::HashMap;
use vstd::prelude::*;

verus! {

broadcast use vstd::std_specs::hash::group_hash_axioms;

/// One inventory record.
///
/// The price is carried as the bit pattern of an IEEE 754 double: the store
/// never computes with prices, it only keeps and returns them, so the bits
/// are the whole story at this layer.
#[derive(Clone, Debug)]
pub struct InventoryItem {
    /// Unique identifier, assigned by the caller.
    pub id: u32,
    /// Text label; no uniqueness or length constraint.
    pub name: String,
    /// Stock count; zero is valid and does not remove the item.
    pub quantity: u32,
    /// Bit pattern of the 64-bit floating-point price.
    pub price_bits: u64,
    /// Expiration date as seconds since the Unix epoch.
    pub expiration_date: u64,
}

/// The mathematical value of one inventory record.
#[verifier::ext_equal]
pub ghost struct ItemModel {
    pub id: u32,
    pub name: Seq<char>,
    pub quantity: u32,
    pub price_bits: u64,
    pub expiration_date: u64,
}

impl View for InventoryItem {
    type V = ItemModel;

    open spec fn view(&self) -> ItemModel {
        ItemModel {
            id: self.id,
            name: self.name@,
            quantity: self.quantity,
            price_bits: self.price_bits,
            expiration_date: self.expiration_date,
        }
    }
}

/// The mathematical value of the whole store: the item records by
/// identifier, and the audit-log lines in order of insertion.
#[verifier::ext_equal]
pub ghost struct StoreModel {
    pub items: Map<u32, ItemModel>,
    pub logs: Seq<Seq<char>>,
}

/// The model of a map of stored records.
pub open spec fn items_model(m: Map<u32, InventoryItem>) -> Map<u32, ItemModel> {
    m.map_values(|i: InventoryItem| i@)
}

/// The model of a list of audit-log lines.
pub open spec fn logs_model(l: Seq<String>) -> Seq<Seq<char>> {
    l.map_values(|s: String| s@)
}

/// The model transition performed by adding `item` with timestamp `ts`:
/// the record is inserted at its own identifier, overwriting whatever was
/// there, and one addition line is appended to the log.
pub open spec fn add_model(s: StoreModel, item: ItemModel, ts: Seq<char>) -> StoreModel {
    StoreModel {
        items: s.items.insert(item.id, item),
        logs: s.logs.push(text::add_msg(item.id, ts)),
    }
}

/// The model transition performed by setting the quantity of the record at
/// `id` to `quantity` with timestamp `ts`: if `id` is present, only its
/// quantity changes and one update line is appended; if it is absent, the
/// store is left exactly as it was.
pub open spec fn update_quantity_model(
    s: StoreModel,
    id: u32,
    quantity: u32,
    ts: Seq<char>,
) -> StoreModel {
    if s.items.contains_key(id) {
        StoreModel {
            items: s.items.insert(id, ItemModel { quantity: quantity, ..s.items[id] }),
            logs: s.logs.push(text::update_msg(id, quantity, ts)),
        }
    } else {
        s
    }
}

/// The model transition performed by removing the record at `id` with
/// timestamp `ts`: if `id` is present, its record goes away and one removal
/// line is appended; if it is absent, the store is left exactly as it was.
pub open spec fn remove_model(s: StoreModel, id: u32, ts: Seq<char>) -> StoreModel {
    if s.items.contains_key(id) {
        StoreModel { items: s.items.remove(id), logs: s.logs.push(text::remove_msg(id, ts)) }
    } else {
        s
    }
}

/// Manages the inventory and keeps a log of changes.
pub struct SupermarketManager {
    /// The inventory records, keyed by their identifier.
    pub items: HashMap<u32, InventoryItem>,
    /// The audit log, in insertion order.
    pub logs: Vec<String>,
}

impl View for SupermarketManager {
    type V = StoreModel;

    open spec fn view(&self) -> StoreModel {
        StoreModel { items: items_model(self.items@), logs: logs_model(self.logs@) }
    }
}

impl SupermarketManager {
    /// Creates a store with no items and an empty log.
    pub fn new() -> (r: Self)
        ensures
            r@.items == Map::<u32, ItemModel>::empty(),
            r@.logs == Seq::<Seq<char>>::empty(),
    {
        let r = SupermarketManager { items: HashMap::new(), logs: Vec::new() };
        proof {
            assert(r@.items =~= Map::<u32, ItemModel>::empty());
            assert(r@.logs =~= Seq::<Seq<char>>::empty());
        }
        r
    }

    /// The current wall-clock time as an RFC 3339 string.
    ///
    /// Relies on `time::OffsetDateTime::now_utc` for the current UTC time
    /// and on `time::OffsetDateTime::format` with the well-known RFC 3339
    /// description for its rendering. The result depends on the clock, so
    /// nothing is claimed of it. A failure to format the current time is
    /// treated as an unrecoverable environment failure and aborts the
    /// process, as the store's design prescribes.
    #[verifier::external_body]
    pub fn get_current_time() -> String {
        let now = time::OffsetDateTime::now_utc();
        now.format(&time::format_description::well_known::Rfc3339).unwrap()
    }

    /// Inserts `item` at its own identifier, overwriting any record already
    /// there, and appends an addition log line stamped `timestamp`.
    pub fn add_item_with_timestamp(&mut self, item: InventoryItem, timestamp: &str)
        ensures
            final(self)@ == add_model(old(self)@, item@, timestamp@),
    {
        let ghost prev = *self;
        let id = item.id;
        let line = text::add_msg_str(id, timestamp);
        self.items.insert(id, item);
        self.logs.push(line);
        proof {
            assert(items_model(self.items@) =~= items_model(prev.items@).insert(id, item@));
            assert(logs_model(self.logs@) =~= logs_model(prev.logs@).push(line@));
            assert(self@ =~= add_model(prev@, item@, timestamp@));
        }
    }

    /// Inserts `item` at its own identifier, overwriting any record already
    /// there, and appends an addition log line stamped with the current
    /// wall-clock time.
    pub fn add_item(&mut self, item: InventoryItem)
        ensures
            exists|ts: Seq<char>| final(self)@ == add_model(old(self)@, item@, ts),
    {
        let ghost prev = *self;
        let timestamp = Self::get_current_time();
        let ghost ts = timestamp@;
        self.add_item_with_timestamp(item, timestamp.as_str());
        proof {
            assert(self@ == add_model(prev@, item@, ts));
        }
    }

    /// Looks up the record stored under `id`, if any.
    pub fn get_item(&self, id: u32) -> (r: Option<&InventoryItem>)
        ensures
            match r {
                Some(item) => self@.items.contains_key(id) && item@ == self@.items[id],
                None => !self@.items.contains_key(id),
            },
    {
        self.items.get(&id)
    }

    /// If a record exists at `id`, replaces its quantity with `quantity`
    /// and appends an update log line stamped `timestamp`; otherwise leaves
    /// the store unchanged, with no log entry and no error.
    pub fn update_item_quantity_with_timestamp(&mut self, id: u32, quantity: u32, timestamp: &str)
        ensures
            final(self)@ == update_quantity_model(old(self)@, id, quantity, timestamp@),
    {
        let ghost prev = *self;
        let updated_opt = match self.items.get(&id) {
            Some(item) => Some(
                InventoryItem {
                    id: item.id,
                    name: item.name.clone(),
                    quantity: quantity,
                    price_bits: item.price_bits,
                    expiration_date: item.expiration_date,
                },
            ),
            None => None,
        };
        match updated_opt {
            Some(updated) => {
                let line = text::update_msg_str(id, quantity, timestamp);
                self.items.insert(id, updated);
                self.logs.push(line);
                proof {
                    assert(updated@ =~= ItemModel { quantity: quantity, ..prev@.items[id] });
                    assert(items_model(self.items@) =~= items_model(prev.items@).insert(
                        id,
                        updated@,
                    ));
                    assert(logs_model(self.logs@) =~= logs_model(prev.logs@).push(line@));
                    assert(self@ =~= update_quantity_model(prev@, id, quantity, timestamp@));
                }
            },
            None => {
                proof {
                    assert(!self@.items.contains_key(id));
                    assert(self@ =~= update_quantity_model(prev@, id, quantity, timestamp@));
                }
            },
        }
    }

    /// If a record exists at `id`, replaces its quantity with `quantity`
    /// and appends an update log line stamped with the current wall-clock
    /// time; otherwise leaves the store unchanged, with no log entry and no
    /// error.
    pub fn update_item_quantity(&mut self, id: u32, quantity: u32)
        ensures
            exists|ts: Seq<char>|
                final(self)@ == update_quantity_model(old(self)@, id, quantity, ts),
    {
        let ghost prev = *self;
        let timestamp = Self::get_current_time();
        let ghost ts = timestamp@;
        self.update_item_quantity_with_timestamp(id, quantity, timestamp.as_str());
        proof {
            assert(self@ == update_quantity_model(prev@, id, quantity, ts));
        }
    }

    /// If a record exists at `id`, deletes it and appends a removal log
    /// line stamped `timestamp`; otherwise leaves the store unchanged, with
    /// no log entry and no error.
    pub fn remove_item_with_timestamp(&mut self, id: u32, timestamp: &str)
        ensures
            final(self)@ == remove_model(old(self)@, id, timestamp@),
    {
        let ghost prev = *self;
        let removed = self.items.remove(&id);
        match removed {
            Some(_) => {
                let line = text::remove_msg_str(id, timestamp);
                self.logs.push(line);
                proof {
                    assert(items_model(self.items@) =~= items_model(prev.items@).remove(id));
                    assert(logs_model(self.logs@) =~= logs_model(prev.logs@).push(line@));
                    assert(self@ =~= remove_model(prev@, id, timestamp@));
                }
            },
            None => {
                proof {
                    assert(self.items@ =~= prev.items@);
                    assert(!self@.items.contains_key(id));
                    assert(self@ =~= remove_model(prev@, id, timestamp@));
                }
            },
        }
    }

    /// If a record exists at `id`, deletes it and appends a removal log
    /// line stamped with the current wall-clock time; otherwise leaves the
    /// store unchanged, with no log entry and no error.
    pub fn remove_item(&mut self, id: u32)
        ensures
            exists|ts: Seq<char>| final(self)@ == remove_model(old(self)@, id, ts),
    {
        let ghost prev = *self;
        let timestamp = Self::get_current_time();
        let ghost ts = timestamp@;
        self.remove_item_with_timestamp(id, timestamp.as_str());
        proof {
            assert(self@ == remove_model(prev@, id, ts));
        }
    }

    /// Returns a copy of the full log history, in insertion order.
    pub fn get_logs(&self) -> (r: Vec<String>)
        ensures
            r@ == self.logs@,
            logs_model(r@) == self@.logs,
    {
        let mut r: Vec<String> = Vec::new();
        let mut i: usize = 0;
        while i < self.logs.len()
            invariant
                i <= self.logs.len(),
                r@ == self.logs@.subrange(0, i as int),
            decreases self.logs.len() - i,
        {
            r.push(self.logs[i].clone());
            i = i + 1;
            proof {
                assert(r@ =~= self.logs@.subrange(0, i as int));
            }
        }
        proof {
            assert(r@ =~= self.logs@);
        }
        r
    }
}

/// Insert-then-get: after adding `item`, the store holds exactly `item`
/// at its identifier.
pub proof fn lemma_add_then_get(s: StoreModel, item: ItemModel, ts: Seq<char>)
    ensures
        add_model(s, item, ts).items.contains_key(item.id),
        add_model(s, item, ts).items[item.id] == item,
{
}

/// Overwrite semantics: adding a second record with the same identifier as
/// an existing one fully replaces it; the resulting inventory is the same
/// as if only the second record had been added, never a merge of the two.
pub proof fn lemma_add_overwrites(
    s: StoreModel,
    first: ItemModel,
    second: ItemModel,
    t1: Seq<char>,
    t2: Seq<char>,
)
    requires
        first.id == second.id,
    ensures
        add_model(add_model(s, first, t1), second, t2).items == s.items.insert(second.id, second),
        add_model(add_model(s, first, t1), second, t2).items[second.id] == second,
{
    assert(add_model(add_model(s, first, t1), second, t2).items =~= s.items.insert(
        second.id,
        second,
    ));
}

/// Updating the quantity of an identifier that is not in the store is a
/// silent no-op: the whole store model, the log included, is unchanged.
pub proof fn lemma_update_missing_id_noop(s: StoreModel, id: u32, quantity: u32, ts: Seq<char>)
    requires
        !s.items.contains_key(id),
    ensures
        update_quantity_model(s, id, quantity, ts) == s,
{
}

/// Remove-then-get: after adding a record and then removing its
/// identifier, the identifier is absent; removing it once more is a
/// silent no-op that leaves the store model, the log included, unchanged.
pub proof fn lemma_remove_then_absent(
    s: StoreModel,
    item: ItemModel,
    t1: Seq<char>,
    t2: Seq<char>,
    t3: Seq<char>,
)
    ensures
        !remove_model(add_model(s, item, t1), item.id, t2).items.contains_key(item.id),
        remove_model(remove_model(add_model(s, item, t1), item.id, t2), item.id, t3)
            == remove_model(add_model(s, item, t1), item.id, t2),
{
}

/// The log is append-only: every operation leaves the previous log as a
/// prefix of the new one.
pub proof fn lemma_logs_append_only(
    s: StoreModel,
    item: ItemModel,
    id: u32,
    quantity: u32,
    ts: Seq<char>,
)
    ensures
        s.logs.is_prefix_of(add_model(s, item, ts).logs),
        s.logs.is_prefix_of(update_quantity_model(s, id, quantity, ts).logs),
        s.logs.is_prefix_of(remove_model(s, id, ts).logs),
{
    assert(s.logs =~= s.logs.push(text::add_msg(item.id, ts)).subrange(0, s.logs.len() as int));
    if s.items.contains_key(id) {
        assert(s.logs =~= s.logs.push(text::update_msg(id, quantity, ts)).subrange(
            0,
            s.logs.len() as int,
        ));
        assert(s.logs =~= s.logs.push(text::remove_msg(id, ts)).subrange(0, s.logs.len() as int));
    }
}

/// Log ordering: adding a record, updating its quantity and then removing
/// it appends exactly three log lines, in that order, each carrying the
/// identifier it speaks of and the timestamp it was stamped with.
pub proof fn lemma_log_order(
    s: StoreModel,
    item: ItemModel,
    quantity: u32,
    t1: Seq<char>,
    t2: Seq<char>,
    t3: Seq<char>,
)
    ensures
        ({
            let s3 = remove_model(
                update_quantity_model(add_model(s, item, t1), item.id, quantity, t2),
                item.id,
                t3,
            );
            s3.logs == s.logs + seq![
                text::add_msg(item.id, t1),
                text::update_msg(item.id, quantity, t2),
                text::remove_msg(item.id, t3),
            ]
        }),
{
    let s1 = add_model(s, item, t1);
    let s2 = update_quantity_model(s1, item.id, quantity, t2);
    let s3 = remove_model(s2, item.id, t3);
    assert(s1.items.contains_key(item.id));
    assert(s2.items.contains_key(item.id));
    assert(s3.logs =~= s.logs + seq![
        text::add_msg(item.id, t1),
        text::update_msg(item.id, quantity, t2),
        text::remove_msg(item.id, t3),
    ]);
}

/// Quantity round-trip: updating the quantity of a present record, zero
/// included, keeps the record present with exactly the new quantity and
/// every other field untouched; no implicit removal occurs.
pub proof fn lemma_update_quantity_roundtrip(s: StoreModel, id: u32, quantity: u32, ts: Seq<char>)
    requires
        s.items.contains_key(id),
    ensures
        update_quantity_model(s, id, quantity, ts).items.contains_key(id),
        update_quantity_model(s, id, quantity, ts).items[id].quantity == quantity,
        update_quantity_model(s, id, quantity, ts).items[id].id == s.items[id].id,
        update_quantity_model(s, id, quantity, ts).items[id].name == s.items[id].name,
        update_quantity_model(s, id, quantity, ts).items[id].price_bits == s.items[id].price_bits,
        update_quantity_model(s, id, quantity, ts).items[id].expiration_date
            == s.items[id].expiration_date,
{
}

} // verus!
