use vstd::prelude::*;

verus! {

/// The scope a mutation belongs to; passed through, never interpreted.
#[derive(Clone, Copy, Debug, PartialEq, Eq)]
pub struct Tenancy {
    pub workspace_pk: u128,
    pub change_set_id: u128,
}

/// Who made a mutation; passed through, never interpreted.
#[derive(Clone, Copy, Debug, PartialEq, Eq)]
pub enum Actor {
    System,
    User(u128),
}

/// Whether an event puts a value in place or takes one away.
#[derive(Clone, Copy, Debug, PartialEq, Eq)]
pub enum LayeredEventKind {
    Insertion,
    Eviction,
}

/// One committed write or eviction: the unit that is persisted and gossiped.
/// It carries what a sibling process needs to replay the mutation.
#[derive(Clone, Debug)]
pub struct LayeredEvent {
    pub kind: LayeredEventKind,
    pub table: String,
    pub key: String,
    pub payload: Vec<u8>,
    pub sort_key: String,
    pub web_events: Option<Vec<String>>,
    pub tenancy: Tenancy,
    pub actor: Actor,
}

impl LayeredEvent {
    pub fn new(
        kind: LayeredEventKind,
        table: String,
        key: String,
        payload: Vec<u8>,
        sort_key: String,
        web_events: Option<Vec<String>>,
        tenancy: Tenancy,
        actor: Actor,
    ) -> (r: Self)
        ensures
            r == (LayeredEvent { kind, table, key, payload, sort_key, web_events, tenancy, actor }),
    {
        LayeredEvent { kind, table, key, payload, sort_key, web_events, tenancy, actor }
    }
}

/// An event as it travels on the bus, tagged with the process that sent it.
#[derive(Clone, Debug)]
pub struct GossipMessage {
    pub origin: u128,
    pub event: LayeredEvent,
}

/// The lowercase hex digest that BLAKE3 gives for the bytes.
pub uninterp spec fn content_hash_of(bytes: Seq<u8>) -> Seq<char>;

/// Relies on `blake3::hash` and `Hash::to_hex`: the digest of the bytes, as
/// 64 lowercase hex digits.
#[verifier::external_body]
fn blake3_hex(bytes: &Vec<u8>) -> (r: String)
    ensures
        r@ == content_hash_of(bytes@),
        r@.len() == 64,
{
    blake3::hash(bytes).to_hex().to_string()
}

/// The content address of a serialized value.
#[derive(Clone, Debug, PartialEq, Eq, Hash)]
pub struct ContentHash {
    hex: String,
}

impl View for ContentHash {
    type V = Seq<char>;

    closed spec fn view(&self) -> Seq<char> {
        self.hex@
    }
}

impl ContentHash {
    /// The address of the bytes: the same bytes always give the same address.
    pub fn new(bytes: &Vec<u8>) -> (r: Self)
        ensures
            r@ == content_hash_of(bytes@),
            r@.len() == 64,
    {
        ContentHash { hex: blake3_hex(bytes) }
    }

    /// The address as hex text.
    pub fn to_string(&self) -> (r: String)
        ensures
            r@ == self@,
    {
        self.hex.clone()
    }
}

} // verus!
