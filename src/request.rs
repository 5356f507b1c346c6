//! The relay's durable record of a submitted transaction, and its stored form.
use vstd::prelude::*;
use crate::chain::{Chain, chain_number, lemma_chain_number_injective};
use crate::primitives::{
    Address,
    RequestId,
    TxHash,
    hex_bytes,
    hex_text,
    is_hex_text,
    lemma_hex_text_round_trip,
    uuid_parse,
    uuid_text,
};

verus! {

/// An EIP-1559 transaction request; the fee and nonce fields are filled in
/// before broadcast. Amounts are in wei.
#[derive(Clone, Debug)]
pub struct TxIntent {
    pub from: Option<Address>,
    pub to: Option<Address>,
    pub gas: Option<u128>,
    pub value: Option<u128>,
    pub data: Option<Vec<u8>>,
    pub nonce: Option<u128>,
    pub max_priority_fee_per_gas: Option<u128>,
    pub max_fee_per_gas: Option<u128>,
    pub chain_id: Option<u64>,
}

impl TxIntent {
    /// A request with every field absent.
    pub fn new() -> (r: TxIntent)
        ensures
            r.from is None,
            r.to is None,
            r.gas is None,
            r.value is None,
            r.data is None,
            r.nonce is None,
            r.max_priority_fee_per_gas is None,
            r.max_fee_per_gas is None,
            r.chain_id is None,
    {
        TxIntent {
            from: None,
            to: None,
            gas: None,
            value: None,
            data: None,
            nonce: None,
            max_priority_fee_per_gas: None,
            max_fee_per_gas: None,
            chain_id: None,
        }
    }
}

/// Field-wise equality of two requests, the payload compared by its bytes.
pub open spec fn same_tx(a: TxIntent, b: TxIntent) -> bool {
    &&& a.from == b.from
    &&& a.to == b.to
    &&& a.gas == b.gas
    &&& a.value == b.value
    &&& a.nonce == b.nonce
    &&& a.max_priority_fee_per_gas == b.max_priority_fee_per_gas
    &&& a.max_fee_per_gas == b.max_fee_per_gas
    &&& a.chain_id == b.chain_id
    &&& match (a.data, b.data) {
        (None, None) => true,
        (Some(x), Some(y)) => x@ == y@,
        _ => false,
    }
}

/// Field-wise equality of two records.
pub open spec fn same_request(a: Request, b: Request) -> bool {
    &&& a.id == b.id
    &&& a.hash == b.hash
    &&& a.mined == b.mined
    &&& a.chain == b.chain
    &&& same_tx(a.tx, b.tx)
}

/// The same request with both fee fields replaced.
pub open spec fn with_fees(tx: TxIntent, max_fee: u128, max_priority_fee: u128) -> TxIntent {
    TxIntent {
        max_fee_per_gas: Some(max_fee),
        max_priority_fee_per_gas: Some(max_priority_fee),
        ..tx
    }
}

impl TxIntent {
    /// A field-wise copy.
    pub fn duplicate(&self) -> (r: TxIntent)
        ensures
            same_tx(r, *self),
    {
        let data = match &self.data {
            Some(d) => {
                let c = d.clone();
                assert(c@ =~= d@);
                Some(c)
            },
            None => None,
        };
        TxIntent {
            from: self.from,
            to: self.to,
            gas: self.gas,
            value: self.value,
            data,
            nonce: self.nonce,
            max_priority_fee_per_gas: self.max_priority_fee_per_gas,
            max_fee_per_gas: self.max_fee_per_gas,
            chain_id: self.chain_id,
        }
    }
}

/// The durable record of one relayed transaction.
#[derive(Debug)]
pub struct Request {
    pub id: RequestId,
    pub tx: TxIntent,
    pub hash: TxHash,
    pub mined: bool,
    pub chain: Chain,
}

impl Request {
    /// A field-wise copy.
    pub fn duplicate(&self) -> (r: Request)
        ensures
            same_request(r, *self),
    {
        Request {
            id: self.id,
            tx: self.tx.duplicate(),
            hash: self.hash,
            mined: self.mined,
            chain: self.chain,
        }
    }
}

/// One write of a batch: the new `mined` flag and hash of a record, and the
/// request that was broadcast under that hash where it replaced the stored one.
#[derive(Debug)]
pub struct RequestUpdate {
    pub id: RequestId,
    pub mined: bool,
    pub hash: TxHash,
    pub tx: Option<TxIntent>,
}

/// A record as the store holds it: id and hash as text, chain as its number.
#[derive(Debug)]
pub struct RequestRecord {
    pub id: String,
    pub tx: TxIntent,
    pub hash: String,
    pub mined: bool,
    pub chain: u32,
}

/// Why a stored record could not be read back.
#[derive(Clone, Copy, Debug, PartialEq, Eq, Structural)]
pub enum RecordError {
    InvalidId,
    InvalidHash,
    UnknownChain,
}

impl RequestRecord {
    /// The stored form of a request.
    pub fn from_request(request: Request) -> (r: RequestRecord)
        ensures
            r.id@ == uuid_text(request.id.value),
            r.hash@ == hex_text(request.hash.bytes@),
            r.tx == request.tx,
            r.mined == request.mined,
            r.chain == chain_number(request.chain),
    {
        RequestRecord {
            id: request.id.to_text(),
            hash: request.hash.to_text(),
            chain: request.chain.id(),
            tx: request.tx,
            mined: request.mined,
        }
    }
}

impl Request {
    /// Reads a request back from its stored form.
    pub fn from_record(record: RequestRecord) -> (r: Result<Request, RecordError>)
        ensures
            r is Err ==> (r->Err_0 == RecordError::InvalidId <==> uuid_parse(record.id@) is None),
            r is Err ==> (r->Err_0 == RecordError::InvalidHash <==> uuid_parse(record.id@) is Some
                && !is_hex_text(record.hash@, 32)),
            r is Err ==> (r->Err_0 == RecordError::UnknownChain <==> uuid_parse(record.id@) is Some
                && is_hex_text(record.hash@, 32) && forall|c: Chain| chain_number(c) != record.chain),
            r is Ok <==> {
                &&& uuid_parse(record.id@) is Some
                &&& is_hex_text(record.hash@, 32)
                &&& exists|c: Chain| chain_number(c) == record.chain
            },
            r matches Ok(q) ==> {
                &&& q.id.value == uuid_parse(record.id@)->0
                &&& q.hash.bytes@ == hex_bytes(record.hash@, 32)
                &&& chain_number(q.chain) == record.chain
                &&& q.tx == record.tx
                &&& q.mined == record.mined
            },
            forall|q: Request|
                record.id@ == uuid_text(q.id.value) && record.hash@ == hex_text(q.hash.bytes@)
                    && record.chain == chain_number(q.chain) && record.tx == q.tx && record.mined
                    == q.mined ==> r == Ok::<Request, RecordError>(q),
    {
        proof {
            assert forall|q: Request| record.hash@ == hex_text(#[trigger] q.hash.bytes@) implies is_hex_text(
                record.hash@,
                32,
            ) && hex_bytes(record.hash@, 32) == q.hash.bytes@ by {
                lemma_hex_text_round_trip(q.hash.bytes@);
            }
        }
        let id = match RequestId::parse(record.id.as_str()) {
            Some(id) => id,
            None => {
                return Err(RecordError::InvalidId);
            },
        };
        let hash = match TxHash::from_text(record.hash.as_str()) {
            Some(h) => h,
            None => {
                return Err(RecordError::InvalidHash);
            },
        };
        let chain = match Chain::from_id(record.chain) {
            Some(c) => c,
            None => {
                return Err(RecordError::UnknownChain);
            },
        };
        let ghost rec = record;
        let r = Request { id, tx: record.tx, hash, mined: record.mined, chain };
        proof {
            assert forall|q: Request|
                rec.id@ == uuid_text(q.id.value) && rec.hash@ == hex_text(q.hash.bytes@) && rec.chain
                    == chain_number(q.chain) && rec.tx == q.tx && rec.mined == q.mined implies r == q by {
                assert(id == q.id);
                lemma_hex_text_round_trip(q.hash.bytes@);
                assert(hash.bytes@ == q.hash.bytes@);
                assert(hash.bytes == q.hash.bytes);
                assert(hash == q.hash);
                lemma_chain_number_injective(chain, q.chain);
            }
        }
        Ok(r)
    }
}

} // verus!
