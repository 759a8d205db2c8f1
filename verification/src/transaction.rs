//! The transaction envelope: raw transactions, their canonical encoding and
//! signing message, signed transactions with memoized sizes and committed
//! hash, and the signature-checked lifecycle.

use vstd::prelude::*;

use crate::account_address::AccountAddress;
use crate::authenticator::{
    txn_auth_signature_count, AuthenticationError, CryptoMaterialError, TransactionAuthenticator,
    TransactionAuthenticatorView, MAX_NUM_OF_SIGS,
};
use crate::chain_id::ChainId;
use crate::codec::{
    byte_seqs_enc, bytes_enc, u64_le_bytes, uleb128_enc, write_byte_seqs, write_bytes, write_raw,
    write_u64_le, write_uleb128,
};
use crate::ed25519::{ed25519_verifies, Ed25519PublicKey, Ed25519Signature};
use crate::hash::{sha3_256, sha3_256_of, HashValue};

verus! {

// ---------------------------------------------------------------------------
// Views: the mathematical shape of each transaction type.
// ---------------------------------------------------------------------------
/// The view of a `Script`: its code and arguments as plain byte strings.
#[verifier::ext_equal]
pub struct ScriptView {
    pub code: Seq<u8>,
    pub args: Seq<Seq<u8>>,
}

/// The view of an `EntryFunction`: the on-chain function it names and its
/// arguments, as plain byte strings.
#[verifier::ext_equal]
pub struct EntryFunctionView {
    pub module_address: Seq<u8>,
    pub module_name: Seq<u8>,
    pub function_name: Seq<u8>,
    pub args: Seq<Seq<u8>>,
}

/// The view of a `TransactionPayload`.
#[verifier::ext_equal]
pub enum TransactionPayloadView {
    Script(ScriptView),
    ModuleBundle(u64),
    EntryFunction(EntryFunctionView),
}

/// The view of a `RawTransaction`: every signable field, in wire order.
#[verifier::ext_equal]
pub struct RawTransactionView {
    pub sender: Seq<u8>,
    pub sequence_number: u64,
    pub payload: TransactionPayloadView,
    pub max_gas_amount: u64,
    pub gas_unit_price: u64,
    pub expiration_timestamp_secs: u64,
    pub chain_id: u8,
}

/// The view of a `SignedTransaction`: the raw transaction and the
/// authenticator, and nothing else. The memoized sizes and hash are pure
/// functions of these two fields and never enter the view, so logical
/// identity ignores them.
#[verifier::ext_equal]
pub struct SignedTransactionView {
    pub raw_txn: RawTransactionView,
    pub authenticator: TransactionAuthenticatorView,
}

/// The view of a `Transaction`.
#[verifier::ext_equal]
pub enum TransactionView {
    UserTransaction(SignedTransactionView),
}

// ---------------------------------------------------------------------------
// Canonical encoding of each transaction type.
// ---------------------------------------------------------------------------
/// The wire encoding of a script: code, then arguments.
pub open spec fn script_enc(s: ScriptView) -> Seq<u8> {
    bytes_enc(s.code) + byte_seqs_enc(s.args)
}

/// The wire encoding of an entry function: module address and name, then
/// function name, then arguments.
pub open spec fn entry_function_enc(e: EntryFunctionView) -> Seq<u8> {
    e.module_address + bytes_enc(e.module_name) + bytes_enc(e.function_name)
        + byte_seqs_enc(e.args)
}

/// The wire encoding of a payload: its variant tag, then the variant.
pub open spec fn payload_enc(p: TransactionPayloadView) -> Seq<u8> {
    match p {
        TransactionPayloadView::Script(s) => uleb128_enc(0) + script_enc(s),
        TransactionPayloadView::ModuleBundle(d) => uleb128_enc(1) + u64_le_bytes(d),
        TransactionPayloadView::EntryFunction(e) => uleb128_enc(2) + entry_function_enc(e),
    }
}

/// The wire encoding of a raw transaction: its fields in declared order,
/// with the sender's 32 bytes unframed and the chain id as one byte.
pub open spec fn raw_txn_enc(rt: RawTransactionView) -> Seq<u8> {
    rt.sender + u64_le_bytes(rt.sequence_number) + payload_enc(rt.payload) + u64_le_bytes(
        rt.max_gas_amount,
    ) + u64_le_bytes(rt.gas_unit_price) + u64_le_bytes(rt.expiration_timestamp_secs) + seq![
        rt.chain_id,
    ]
}

/// The wire encoding of a transaction authenticator: its variant tag, then
/// the length-prefixed public key and signature.
pub open spec fn txn_auth_enc(a: TransactionAuthenticatorView) -> Seq<u8> {
    match a {
        TransactionAuthenticatorView::Ed25519 { public_key, signature } => {
            uleb128_enc(0) + bytes_enc(public_key) + bytes_enc(signature)
        },
    }
}

/// The wire encoding of a signed transaction: the raw transaction, then the
/// authenticator. The caches are never serialized.
pub open spec fn signed_txn_enc(st: SignedTransactionView) -> Seq<u8> {
    raw_txn_enc(st.raw_txn) + txn_auth_enc(st.authenticator)
}

/// The wire encoding of a ledger transaction: its variant tag, then the
/// variant.
pub open spec fn transaction_enc(t: TransactionView) -> Seq<u8> {
    match t {
        TransactionView::UserTransaction(st) => uleb128_enc(0) + signed_txn_enc(st),
    }
}

// ---------------------------------------------------------------------------
// Domain separation and the signing message.
// ---------------------------------------------------------------------------
/// The ASCII bytes of `APTOS::RawTransaction`, the domain-separation tag of
/// raw-transaction hashing and signing.
pub open spec fn raw_transaction_salt_tag() -> Seq<u8> {
    seq![
        65u8, 80u8, 84u8, 79u8, 83u8, 58u8, 58u8, 82u8, 97u8, 119u8, 84u8, 114u8, 97u8, 110u8,
        115u8, 97u8, 99u8, 116u8, 105u8, 111u8, 110u8,
    ]
}

/// The ASCII bytes of `APTOS::Transaction`, the domain-separation tag of
/// committed-transaction hashing.
pub open spec fn transaction_salt_tag() -> Seq<u8> {
    seq![
        65u8, 80u8, 84u8, 79u8, 83u8, 58u8, 58u8, 84u8, 114u8, 97u8, 110u8, 115u8, 97u8, 99u8,
        116u8, 105u8, 111u8, 110u8,
    ]
}

/// The signing message of a raw transaction: the digest of the domain tag,
/// then the canonical encoding. Signing this byte string, and nothing else,
/// authorises the transaction; the salt keeps it from colliding with any
/// other hashed structure.
pub open spec fn signing_message_bytes(rt: RawTransactionView) -> Seq<u8> {
    sha3_256_of(raw_transaction_salt_tag()) + raw_txn_enc(rt)
}

/// The content hash of a ledger transaction: the digest of the salted
/// canonical encoding.
pub open spec fn transaction_hash_bytes(t: TransactionView) -> Seq<u8> {
    sha3_256_of(sha3_256_of(transaction_salt_tag()) + transaction_enc(t))
}

/// The hash of a signed transaction as it appears in the committed ledger:
/// the hash of the enclosing user-transaction variant, not of the raw
/// transaction alone.
pub open spec fn committed_hash_bytes(st: SignedTransactionView) -> Seq<u8> {
    transaction_hash_bytes(TransactionView::UserTransaction(st))
}

fn raw_transaction_salt_input() -> (r: Vec<u8>)
    ensures
        r@ == raw_transaction_salt_tag(),
{
    let mut v: Vec<u8> = Vec::new();
    v.push(65u8);
    v.push(80u8);
    v.push(84u8);
    v.push(79u8);
    v.push(83u8);
    v.push(58u8);
    v.push(58u8);
    v.push(82u8);
    v.push(97u8);
    v.push(119u8);
    v.push(84u8);
    v.push(114u8);
    v.push(97u8);
    v.push(110u8);
    v.push(115u8);
    v.push(97u8);
    v.push(99u8);
    v.push(116u8);
    v.push(105u8);
    v.push(111u8);
    v.push(110u8);
    proof {
        assert(v@ =~= raw_transaction_salt_tag());
    }
    v
}

fn transaction_salt_input() -> (r: Vec<u8>)
    ensures
        r@ == transaction_salt_tag(),
{
    let mut v: Vec<u8> = Vec::new();
    v.push(65u8);
    v.push(80u8);
    v.push(84u8);
    v.push(79u8);
    v.push(83u8);
    v.push(58u8);
    v.push(58u8);
    v.push(84u8);
    v.push(114u8);
    v.push(97u8);
    v.push(110u8);
    v.push(115u8);
    v.push(97u8);
    v.push(99u8);
    v.push(116u8);
    v.push(105u8);
    v.push(111u8);
    v.push(110u8);
    proof {
        assert(v@ =~= transaction_salt_tag());
    }
    v
}

// ---------------------------------------------------------------------------
// Payload types.
// ---------------------------------------------------------------------------
/// A transaction that executes code directly.
#[derive(Debug)]
pub struct Script {
    code: Vec<u8>,
    args: Vec<Vec<u8>>,
}

impl View for Script {
    type V = ScriptView;

    closed spec fn view(&self) -> ScriptView {
        ScriptView { code: self.code@, args: self.args.deep_view() }
    }
}

/// The deep view of a list of byte strings is its element views, in order.
proof fn lemma_deep_view_index(v: &Vec<Vec<u8>>, i: int)
    requires
        0 <= i < v@.len(),
    ensures
        v.deep_view().len() == v@.len(),
        v.deep_view()[i] == v@[i]@,
{
    assert(v@[i].deep_view() =~= v@[i]@);
}

/// True iff two byte vectors hold the same bytes.
fn bytes_eq(a: &Vec<u8>, b: &Vec<u8>) -> (r: bool)
    ensures
        r == (a@ == b@),
{
    if a.len() != b.len() {
        return false;
    }
    let mut i: usize = 0;
    while i < a.len()
        invariant
            a@.len() == b@.len(),
            i <= a@.len(),
            forall|j: int| 0 <= j < i ==> a@[j] == b@[j],
        decreases a@.len() - i,
    {
        if a[i] != b[i] {
            return false;
        }
        i = i + 1;
    }
    proof {
        assert(a@ =~= b@);
    }
    true
}

/// True iff two lists of byte strings hold the same byte strings.
fn byte_vecs_eq(a: &Vec<Vec<u8>>, b: &Vec<Vec<u8>>) -> (r: bool)
    ensures
        r == (a.deep_view() == b.deep_view()),
{
    if a.len() != b.len() {
        proof {
            assert(a.deep_view().len() == a@.len());
            assert(b.deep_view().len() == b@.len());
        }
        return false;
    }
    let mut i: usize = 0;
    while i < a.len()
        invariant
            a@.len() == b@.len(),
            i <= a@.len(),
            forall|j: int| 0 <= j < i ==> a@[j]@ == b@[j]@,
        decreases a@.len() - i,
    {
        if !bytes_eq(&a[i], &b[i]) {
            proof {
                lemma_deep_view_index(a, i as int);
                lemma_deep_view_index(b, i as int);
                assert(a.deep_view()[i as int] != b.deep_view()[i as int]);
            }
            return false;
        }
        i = i + 1;
    }
    proof {
        assert forall|j: int| 0 <= j < a.deep_view().len() implies a.deep_view()[j]
            == b.deep_view()[j] by {
            lemma_deep_view_index(a, j);
            lemma_deep_view_index(b, j);
        }
        assert(a.deep_view() =~= b.deep_view());
    }
    true
}

/// Copy the bytes of `v` into a fresh vector.
fn clone_bytes(v: &Vec<u8>) -> (r: Vec<u8>)
    ensures
        r@ == v@,
{
    let mut out: Vec<u8> = Vec::new();
    let mut i: usize = 0;
    while i < v.len()
        invariant
            i <= v@.len(),
            out@ == v@.take(i as int),
        decreases v@.len() - i,
    {
        out.push(v[i]);
        i = i + 1;
        assert(out@ =~= v@.take(i as int));
    }
    assert(v@.take(v@.len() as int) =~= v@);
    out
}

/// Copy a list of byte strings into a fresh vector.
fn clone_byte_vecs(v: &Vec<Vec<u8>>) -> (r: Vec<Vec<u8>>)
    ensures
        r.deep_view() == v.deep_view(),
{
    let mut out: Vec<Vec<u8>> = Vec::new();
    let mut i: usize = 0;
    while i < v.len()
        invariant
            i <= v@.len(),
            out@.len() == i,
            forall|j: int| 0 <= j < i ==> out@[j]@ == v@[j]@,
        decreases v@.len() - i,
    {
        out.push(clone_bytes(&v[i]));
        i = i + 1;
    }
    proof {
        assert(out.deep_view() =~~= v.deep_view());
    }
    out
}

impl Clone for Script {
    fn clone(&self) -> (r: Self)
        ensures
            r@ == self@,
    {
        let r = Script { code: clone_bytes(&self.code), args: clone_byte_vecs(&self.args) };
        proof {
            assert(r@ =~~= self@);
        }
        r
    }
}

impl PartialEq for Script {
    fn eq(&self, other: &Self) -> (r: bool) {
        let r = bytes_eq(&self.code, &other.code) && byte_vecs_eq(&self.args, &other.args);
        proof {
            if r {
                assert(self@ =~= other@);
            }
        }
        r
    }
}

impl vstd::std_specs::cmp::PartialEqSpecImpl for Script {
    open spec fn obeys_eq_spec() -> bool {
        true
    }

    open spec fn eq_spec(&self, other: &Self) -> bool {
        self@ == other@
    }
}

impl Eq for Script {

}

impl Script {
    /// Wrap code and arguments as a script payload.
    pub fn new(code: Vec<u8>, args: Vec<Vec<u8>>) -> (r: Self)
        ensures
            r@ == (ScriptView { code: code@, args: args.deep_view() }),
    {
        Script { code, args }
    }

    fn write(&self, out: &mut Vec<u8>)
        ensures
            final(out)@ == old(out)@ + script_enc(self@),
    {
        write_bytes(out, self.code.as_slice());
        write_byte_seqs(out, &self.args);
        assert(final(out)@ =~= old(out)@ + script_enc(self@));
    }
}

/// A transaction that calls an entry function already published on-chain,
/// named by its module address, module name, and function name.
#[derive(Debug)]
pub struct EntryFunction {
    module_address: AccountAddress,
    module_name: Vec<u8>,
    function_name: Vec<u8>,
    args: Vec<Vec<u8>>,
}

impl View for EntryFunction {
    type V = EntryFunctionView;

    closed spec fn view(&self) -> EntryFunctionView {
        EntryFunctionView {
            module_address: self.module_address@,
            module_name: self.module_name@,
            function_name: self.function_name@,
            args: self.args.deep_view(),
        }
    }
}

impl Clone for EntryFunction {
    fn clone(&self) -> (r: Self)
        ensures
            r@ == self@,
    {
        let r = EntryFunction {
            module_address: self.module_address,
            module_name: clone_bytes(&self.module_name),
            function_name: clone_bytes(&self.function_name),
            args: clone_byte_vecs(&self.args),
        };
        proof {
            assert(r@ =~~= self@);
        }
        r
    }
}

impl PartialEq for EntryFunction {
    fn eq(&self, other: &Self) -> (r: bool) {
        let r = self.module_address == other.module_address && bytes_eq(
            &self.module_name,
            &other.module_name,
        ) && bytes_eq(&self.function_name, &other.function_name) && byte_vecs_eq(
            &self.args,
            &other.args,
        );
        proof {
            if r {
                assert(self@ =~= other@);
            }
        }
        r
    }
}

impl vstd::std_specs::cmp::PartialEqSpecImpl for EntryFunction {
    open spec fn obeys_eq_spec() -> bool {
        true
    }

    open spec fn eq_spec(&self, other: &Self) -> bool {
        self@ == other@
    }
}

impl Eq for EntryFunction {

}

impl EntryFunction {
    /// Wrap the named function and arguments as an entry-function payload.
    pub fn new(
        module_address: AccountAddress,
        module_name: Vec<u8>,
        function_name: Vec<u8>,
        args: Vec<Vec<u8>>,
    ) -> (r: Self)
        ensures
            r@ == (EntryFunctionView {
                module_address: module_address@,
                module_name: module_name@,
                function_name: function_name@,
                args: args.deep_view(),
            }),
    {
        EntryFunction { module_address, module_name, function_name, args }
    }

    fn write(&self, out: &mut Vec<u8>)
        ensures
            final(out)@ == old(out)@ + entry_function_enc(self@),
    {
        let addr = self.module_address.to_vec();
        write_raw(out, addr.as_slice());
        write_bytes(out, self.module_name.as_slice());
        write_bytes(out, self.function_name.as_slice());
        write_byte_seqs(out, &self.args);
        assert(final(out)@ =~= old(out)@ + entry_function_enc(self@));
    }
}

/// The deprecated module-bundle payload, kept only so that the wire tag and
/// shape stay stable.
#[derive(Clone, Copy, Debug, PartialEq, Eq, Structural)]
pub struct DeprecatedPayload {
    dummy_value: u64,
}

impl View for DeprecatedPayload {
    type V = u64;

    closed spec fn view(&self) -> u64 {
        self.dummy_value
    }
}

impl DeprecatedPayload {
    /// Wrap the placeholder value.
    pub fn new(dummy_value: u64) -> (r: Self)
        ensures
            r@ == dummy_value,
    {
        DeprecatedPayload { dummy_value }
    }

    /// The placeholder value.
    pub fn value(&self) -> (r: u64)
        ensures
            r == self@,
    {
        self.dummy_value
    }
}

/// The payload of a transaction: a script, the deprecated module bundle, or
/// an entry-function call.
#[derive(Debug)]
pub enum TransactionPayload {
    /// A transaction that executes code.
    Script(Script),
    /// Deprecated; the tag is kept for wire compatibility.
    ModuleBundle(DeprecatedPayload),
    /// A transaction that executes an existing entry function.
    EntryFunction(EntryFunction),
}

impl View for TransactionPayload {
    type V = TransactionPayloadView;

    closed spec fn view(&self) -> TransactionPayloadView {
        match self {
            TransactionPayload::Script(s) => TransactionPayloadView::Script(s@),
            TransactionPayload::ModuleBundle(d) => TransactionPayloadView::ModuleBundle(d@),
            TransactionPayload::EntryFunction(e) => TransactionPayloadView::EntryFunction(e@),
        }
    }
}

impl Clone for TransactionPayload {
    fn clone(&self) -> (r: Self)
        ensures
            r@ == self@,
    {
        match self {
            TransactionPayload::Script(s) => TransactionPayload::Script(s.clone()),
            TransactionPayload::ModuleBundle(d) => TransactionPayload::ModuleBundle(*d),
            TransactionPayload::EntryFunction(e) => TransactionPayload::EntryFunction(e.clone()),
        }
    }
}

impl PartialEq for TransactionPayload {
    fn eq(&self, other: &Self) -> (r: bool) {
        match (self, other) {
            (TransactionPayload::Script(a), TransactionPayload::Script(b)) => *a == *b,
            (TransactionPayload::ModuleBundle(a), TransactionPayload::ModuleBundle(b)) => {
                a.value() == b.value()
            },
            (TransactionPayload::EntryFunction(a), TransactionPayload::EntryFunction(b)) => {
                *a == *b
            },
            _ => false,
        }
    }
}

impl vstd::std_specs::cmp::PartialEqSpecImpl for TransactionPayload {
    open spec fn obeys_eq_spec() -> bool {
        true
    }

    open spec fn eq_spec(&self, other: &Self) -> bool {
        self@ == other@
    }
}

impl Eq for TransactionPayload {

}

impl TransactionPayload {
    /// The entry function within; the payload must be that variant.
    pub fn into_entry_function(self) -> (r: EntryFunction)
        requires
            self@ matches TransactionPayloadView::EntryFunction(_),
        ensures
            self@ == TransactionPayloadView::EntryFunction(r@),
    {
        match self {
            TransactionPayload::EntryFunction(f) => f,
            _ => vstd::pervasive::unreached(),
        }
    }

    fn write(&self, out: &mut Vec<u8>)
        ensures
            final(out)@ == old(out)@ + payload_enc(self@),
    {
        match self {
            TransactionPayload::Script(s) => {
                write_uleb128(out, 0);
                s.write(out);
                assert(out@ =~= old(out)@ + payload_enc(self@));
            },
            TransactionPayload::ModuleBundle(d) => {
                write_uleb128(out, 1);
                write_u64_le(out, d.value());
                assert(out@ =~= old(out)@ + payload_enc(self@));
            },
            TransactionPayload::EntryFunction(e) => {
                write_uleb128(out, 2);
                e.write(out);
                assert(out@ =~= old(out)@ + payload_enc(self@));
            },
        }
    }
}

// ---------------------------------------------------------------------------
// RawTransaction.
// ---------------------------------------------------------------------------
/// The portion of a transaction that a client signs: sender, per-sender
/// sequence number, payload, gas ceiling and unit price, absolute
/// expiration time in seconds, and the chain the transaction is bound to.
/// Construction is total; semantic validity is a downstream concern.
#[derive(Debug)]
pub struct RawTransaction {
    sender: AccountAddress,
    sequence_number: u64,
    payload: TransactionPayload,
    max_gas_amount: u64,
    gas_unit_price: u64,
    expiration_timestamp_secs: u64,
    chain_id: ChainId,
}

impl View for RawTransaction {
    type V = RawTransactionView;

    closed spec fn view(&self) -> RawTransactionView {
        RawTransactionView {
            sender: self.sender@,
            sequence_number: self.sequence_number,
            payload: self.payload@,
            max_gas_amount: self.max_gas_amount,
            gas_unit_price: self.gas_unit_price,
            expiration_timestamp_secs: self.expiration_timestamp_secs,
            chain_id: self.chain_id@,
        }
    }
}

impl Clone for RawTransaction {
    fn clone(&self) -> (r: Self)
        ensures
            r@ == self@,
    {
        let r = RawTransaction {
            sender: self.sender,
            sequence_number: self.sequence_number,
            payload: self.payload.clone(),
            max_gas_amount: self.max_gas_amount,
            gas_unit_price: self.gas_unit_price,
            expiration_timestamp_secs: self.expiration_timestamp_secs,
            chain_id: self.chain_id,
        };
        proof {
            assert(r@ =~= self@);
        }
        r
    }
}

impl PartialEq for RawTransaction {
    fn eq(&self, other: &Self) -> (r: bool) {
        let r = self.sender == other.sender && self.sequence_number == other.sequence_number
            && self.payload == other.payload && self.max_gas_amount == other.max_gas_amount
            && self.gas_unit_price == other.gas_unit_price && self.expiration_timestamp_secs
            == other.expiration_timestamp_secs && self.chain_id.id() == other.chain_id.id();
        proof {
            if r {
                assert(self@ =~= other@);
            }
        }
        r
    }
}

impl vstd::std_specs::cmp::PartialEqSpecImpl for RawTransaction {
    open spec fn obeys_eq_spec() -> bool {
        true
    }

    open spec fn eq_spec(&self, other: &Self) -> bool {
        self@ == other@
    }
}

impl Eq for RawTransaction {

}

impl RawTransaction {
    /// Assemble a raw transaction from its fields.
    pub fn new(
        sender: AccountAddress,
        sequence_number: u64,
        payload: TransactionPayload,
        max_gas_amount: u64,
        gas_unit_price: u64,
        expiration_timestamp_secs: u64,
        chain_id: ChainId,
    ) -> (r: Self)
        ensures
            r@ == (RawTransactionView {
                sender: sender@,
                sequence_number,
                payload: payload@,
                max_gas_amount,
                gas_unit_price,
                expiration_timestamp_secs,
                chain_id: chain_id@,
            }),
    {
        RawTransaction {
            sender,
            sequence_number,
            payload,
            max_gas_amount,
            gas_unit_price,
            expiration_timestamp_secs,
            chain_id,
        }
    }

    /// Assemble a raw transaction whose payload is a script.
    pub fn new_script(
        sender: AccountAddress,
        sequence_number: u64,
        script: Script,
        max_gas_amount: u64,
        gas_unit_price: u64,
        expiration_timestamp_secs: u64,
        chain_id: ChainId,
    ) -> (r: Self)
        ensures
            r@ == (RawTransactionView {
                sender: sender@,
                sequence_number,
                payload: TransactionPayloadView::Script(script@),
                max_gas_amount,
                gas_unit_price,
                expiration_timestamp_secs,
                chain_id: chain_id@,
            }),
    {
        RawTransaction {
            sender,
            sequence_number,
            payload: TransactionPayload::Script(script),
            max_gas_amount,
            gas_unit_price,
            expiration_timestamp_secs,
            chain_id,
        }
    }

    /// Assemble a raw transaction whose payload is an entry function.
    pub fn new_entry_function(
        sender: AccountAddress,
        sequence_number: u64,
        entry_function: EntryFunction,
        max_gas_amount: u64,
        gas_unit_price: u64,
        expiration_timestamp_secs: u64,
        chain_id: ChainId,
    ) -> (r: Self)
        ensures
            r@ == (RawTransactionView {
                sender: sender@,
                sequence_number,
                payload: TransactionPayloadView::EntryFunction(entry_function@),
                max_gas_amount,
                gas_unit_price,
                expiration_timestamp_secs,
                chain_id: chain_id@,
            }),
    {
        RawTransaction {
            sender,
            sequence_number,
            payload: TransactionPayload::EntryFunction(entry_function),
            max_gas_amount,
            gas_unit_price,
            expiration_timestamp_secs,
            chain_id,
        }
    }

    /// The payload within.
    pub fn into_payload(self) -> (r: TransactionPayload)
        ensures
            r@ == self@.payload,
    {
        self.payload
    }

    /// The sender of this transaction.
    pub fn sender(&self) -> (r: AccountAddress)
        ensures
            r@ == self@.sender,
    {
        self.sender
    }

    fn write(&self, out: &mut Vec<u8>)
        ensures
            final(out)@ == old(out)@ + raw_txn_enc(self@),
    {
        let sender = self.sender.to_vec();
        write_raw(out, sender.as_slice());
        write_u64_le(out, self.sequence_number);
        self.payload.write(out);
        write_u64_le(out, self.max_gas_amount);
        write_u64_le(out, self.gas_unit_price);
        write_u64_le(out, self.expiration_timestamp_secs);
        out.push(self.chain_id.id());
        assert(final(out)@ =~= old(out)@ + raw_txn_enc(self@));
    }

    /// The canonical wire encoding of this transaction.
    pub fn canonical_bytes(&self) -> (r: Vec<u8>)
        ensures
            r@ == raw_txn_enc(self@),
    {
        let mut out: Vec<u8> = Vec::new();
        self.write(&mut out);
        out
    }

    /// The length of the canonical wire encoding.
    pub fn canonical_bytes_len(&self) -> (r: usize)
        ensures
            r == raw_txn_enc(self@).len(),
    {
        self.canonical_bytes().len()
    }

    /// The byte string a client signs to authorise this transaction: the
    /// salted, canonical serialization.
    pub fn signing_message_vec(&self) -> (r: Vec<u8>)
        ensures
            r@ == signing_message_bytes(self@),
    {
        let salt_input = raw_transaction_salt_input();
        let prefix = sha3_256(salt_input.as_slice());
        let mut out = vstd::slice::slice_to_vec(prefix.as_slice());
        self.write(&mut out);
        out
    }

    /// The signing message, as the fallible interface of the hashing
    /// capability; the capability is total over byte strings, so this
    /// always succeeds.
    pub fn signing_message(&self) -> (r: Result<Vec<u8>, CryptoMaterialError>)
        ensures
            r matches Ok(v) && v@ == signing_message_bytes(self@),
    {
        Ok(self.signing_message_vec())
    }
}

/// A transaction authenticator's canonical wire encoding.
pub fn authenticator_canonical_bytes(a: &TransactionAuthenticator) -> (r: Vec<u8>)
    ensures
        r@ == txn_auth_enc(a@),
{
    let mut out: Vec<u8> = Vec::new();
    match a {
        TransactionAuthenticator::Ed25519 { public_key, signature } => {
            write_uleb128(&mut out, 0);
            let pk = public_key.to_bytes();
            write_bytes(&mut out, pk.as_slice());
            let sig = signature.to_bytes();
            write_bytes(&mut out, sig.as_slice());
            assert(out@ =~= txn_auth_enc(a@));
        },
    }
    out
}

fn authenticator_canonical_bytes_len(a: &TransactionAuthenticator) -> (r: usize)
    ensures
        r == txn_auth_enc(a@).len(),
{
    authenticator_canonical_bytes(a).len()
}

// ---------------------------------------------------------------------------
// SignedTransaction and its memoized derived values.
// ---------------------------------------------------------------------------
#[verifier::external_type_specification]
#[verifier::external_body]
#[verifier::reject_recursive_types(T)]
pub struct ExOnceCell<T>(once_cell::sync::OnceCell<T>);

pub assume_specification<T>[ once_cell::sync::OnceCell::<T>::new ]() -> once_cell::sync::OnceCell<
    T,
>;

/// A raw transaction together with the authenticator that answers for it.
/// Three derived values — the serialized size of the raw transaction, of
/// the authenticator, and the committed hash — are memoized in
/// initialize-at-most-once cells; each is a pure function of the two
/// logical fields, so racing initializers compute the same value and any
/// winner is correct.
#[derive(Debug)]
pub struct SignedTransaction {
    raw_txn: RawTransaction,
    authenticator: TransactionAuthenticator,
    raw_txn_size: once_cell::sync::OnceCell<usize>,
    authenticator_size: once_cell::sync::OnceCell<usize>,
    committed_hash: once_cell::sync::OnceCell<HashValue>,
}

impl View for SignedTransaction {
    type V = SignedTransactionView;

    closed spec fn view(&self) -> SignedTransactionView {
        SignedTransactionView { raw_txn: self.raw_txn@, authenticator: self.authenticator@ }
    }
}

impl Clone for SignedTransaction {
    fn clone(&self) -> (r: Self)
        ensures
            r@ == self@,
    {
        let r = SignedTransaction {
            raw_txn: self.raw_txn.clone(),
            authenticator: self.authenticator,
            raw_txn_size: once_cell::sync::OnceCell::new(),
            authenticator_size: once_cell::sync::OnceCell::new(),
            committed_hash: once_cell::sync::OnceCell::new(),
        };
        proof {
            assert(r@ =~= self@);
        }
        r
    }
}

impl PartialEq for SignedTransaction {
    fn eq(&self, other: &Self) -> (r: bool) {
        let r = self.raw_txn == other.raw_txn && self.authenticator == other.authenticator;
        proof {
            if r {
                assert(self@ =~= other@);
            }
        }
        r
    }
}

impl vstd::std_specs::cmp::PartialEqSpecImpl for SignedTransaction {
    open spec fn obeys_eq_spec() -> bool {
        true
    }

    open spec fn eq_spec(&self, other: &Self) -> bool {
        self@ == other@
    }
}

impl Eq for SignedTransaction {

}

/// Logical identity of a signed transaction is the raw transaction and the
/// authenticator alone: two views that agree on that pair are equal,
/// however the size and hash caches of the values they came from were
/// populated.
pub proof fn lemma_eq_ignores_caches(a: SignedTransactionView, b: SignedTransactionView)
    requires
        a.raw_txn == b.raw_txn,
        a.authenticator == b.authenticator,
    ensures
        a == b,
{
    assert(a =~= b);
}

/// Relies on `once_cell::sync::OnceCell::get_or_init`: it returns the
/// value stored in the cell, initializing the cell from the closure on
/// first use. The cell is private, only this function initializes it, and
/// the closure returns `canonical_bytes_len`, whose contract pins the one
/// value named below; so whichever call stored the value stored that one.
#[verifier::external_body]
fn cached_raw_txn_size(txn: &SignedTransaction) -> (n: usize)
    ensures
        n == raw_txn_enc(txn@.raw_txn).len(),
{
    *txn.raw_txn_size.get_or_init(|| txn.raw_txn.canonical_bytes_len())
}

/// Relies on `once_cell::sync::OnceCell::get_or_init`, as above: the cell
/// is private and its one initializer computes
/// `authenticator_canonical_bytes_len`, whose contract pins the value
/// named below.
#[verifier::external_body]
fn cached_authenticator_size(txn: &SignedTransaction) -> (n: usize)
    ensures
        n == txn_auth_enc(txn@.authenticator).len(),
{
    *txn.authenticator_size.get_or_init(|| authenticator_canonical_bytes_len(&txn.authenticator))
}

/// Relies on `once_cell::sync::OnceCell::get_or_init`, as above: the cell
/// is private and its one initializer computes `compute_committed_hash`,
/// whose contract pins the value named below.
#[verifier::external_body]
fn cached_committed_hash(txn: &SignedTransaction) -> (h: HashValue)
    ensures
        h@ == committed_hash_bytes(txn@),
{
    txn.committed_hash.get_or_init(|| txn.compute_committed_hash()).clone()
}

impl SignedTransaction {
    /// Assemble the envelope from a raw transaction and an authenticator,
    /// with all three caches empty.
    pub fn new_signed_transaction(
        raw_txn: RawTransaction,
        authenticator: TransactionAuthenticator,
    ) -> (r: SignedTransaction)
        ensures
            r@ == (SignedTransactionView { raw_txn: raw_txn@, authenticator: authenticator@ }),
    {
        SignedTransaction {
            raw_txn,
            authenticator,
            raw_txn_size: once_cell::sync::OnceCell::new(),
            authenticator_size: once_cell::sync::OnceCell::new(),
            committed_hash: once_cell::sync::OnceCell::new(),
        }
    }

    /// Assemble the envelope from a raw transaction and a single Ed25519
    /// key and signature.
    pub fn new(
        raw_txn: RawTransaction,
        public_key: Ed25519PublicKey,
        signature: Ed25519Signature,
    ) -> (r: SignedTransaction)
        ensures
            r@ == (SignedTransactionView {
                raw_txn: raw_txn@,
                authenticator: TransactionAuthenticatorView::Ed25519 {
                    public_key: public_key@,
                    signature: signature@,
                },
            }),
    {
        let authenticator = TransactionAuthenticator::ed25519(public_key, signature);
        Self::new_signed_transaction(raw_txn, authenticator)
    }

    /// The authenticator.
    pub fn authenticator(&self) -> (r: TransactionAuthenticator)
        ensures
            r@ == self@.authenticator,
    {
        self.authenticator
    }

    /// The authenticator, by reference.
    pub fn authenticator_ref(&self) -> (r: &TransactionAuthenticator)
        ensures
            r@ == self@.authenticator,
    {
        &self.authenticator
    }

    /// The sender of the raw transaction.
    pub fn sender(&self) -> (r: AccountAddress)
        ensures
            r@ == self@.raw_txn.sender,
    {
        self.raw_txn.sender
    }

    /// The raw transaction within.
    pub fn into_raw_transaction(self) -> (r: RawTransaction)
        ensures
            r@ == self@.raw_txn,
    {
        self.raw_txn
    }

    /// The raw transaction, by reference.
    pub fn raw_transaction_ref(&self) -> (r: &RawTransaction)
        ensures
            r@ == self@.raw_txn,
    {
        &self.raw_txn
    }

    /// The sender's sequence number.
    pub fn sequence_number(&self) -> (r: u64)
        ensures
            r == self@.raw_txn.sequence_number,
    {
        self.raw_txn.sequence_number
    }

    /// The chain the transaction is bound to.
    pub fn chain_id(&self) -> (r: ChainId)
        ensures
            r@ == self@.raw_txn.chain_id,
    {
        self.raw_txn.chain_id
    }

    /// The payload, by reference.
    pub fn payload(&self) -> (r: &TransactionPayload)
        ensures
            r@ == self@.raw_txn.payload,
    {
        &self.raw_txn.payload
    }

    /// The gas ceiling.
    pub fn max_gas_amount(&self) -> (r: u64)
        ensures
            r == self@.raw_txn.max_gas_amount,
    {
        self.raw_txn.max_gas_amount
    }

    /// The price per gas unit.
    pub fn gas_unit_price(&self) -> (r: u64)
        ensures
            r == self@.raw_txn.gas_unit_price,
    {
        self.raw_txn.gas_unit_price
    }

    /// The absolute expiration time, in seconds since the epoch.
    pub fn expiration_timestamp_secs(&self) -> (r: u64)
        ensures
            r == self@.raw_txn.expiration_timestamp_secs,
    {
        self.raw_txn.expiration_timestamp_secs
    }

    /// The serialized size of the raw transaction, computed at most once
    /// per value and cached.
    pub fn raw_txn_bytes_len(&self) -> (r: usize)
        ensures
            r == raw_txn_enc(self@.raw_txn).len(),
    {
        cached_raw_txn_size(self)
    }

    /// The serialized size of raw transaction and authenticator together,
    /// each part computed at most once per value and cached. The total must
    /// fit a `usize`.
    pub fn txn_bytes_len(&self) -> (r: usize)
        requires
            raw_txn_enc(self@.raw_txn).len() + txn_auth_enc(self@.authenticator).len()
                <= usize::MAX,
        ensures
            r == raw_txn_enc(self@.raw_txn).len() + txn_auth_enc(self@.authenticator).len(),
    {
        let authenticator_size = cached_authenticator_size(self);
        self.raw_txn_bytes_len() + authenticator_size
    }

    fn compute_committed_hash(&self) -> (r: HashValue)
        ensures
            r@ == committed_hash_bytes(self@),
    {
        let salt_input = transaction_salt_input();
        let prefix = sha3_256(salt_input.as_slice());
        let mut msg = vstd::slice::slice_to_vec(prefix.as_slice());
        write_uleb128(&mut msg, 0);
        self.raw_txn.write(&mut msg);
        let auth = authenticator_canonical_bytes(&self.authenticator);
        write_raw(&mut msg, auth.as_slice());
        proof {
            assert(msg@ =~= sha3_256_of(transaction_salt_tag()) + transaction_enc(
                TransactionView::UserTransaction(self@),
            ));
        }
        HashValue::sha3_256_of(msg.as_slice())
    }

    /// The hash under which this transaction appears in the committed
    /// ledger: the hash of the enclosing user-transaction variant, computed
    /// at most once per value and cached.
    pub fn committed_hash(&self) -> (r: HashValue)
        ensures
            r@ == committed_hash_bytes(self@),
    {
        cached_committed_hash(self)
    }

    /// Consume the envelope, verifying its signature; on success the result
    /// carries the same transaction, now type-attested as checked.
    pub fn check_signature(self) -> (r: Result<
        SignatureCheckedTransaction,
        AuthenticationError,
    >)
        ensures
            txn_auth_signature_count(self@.authenticator) > MAX_NUM_OF_SIGS ==> r == Err::<
                SignatureCheckedTransaction,
                _,
            >(AuthenticationError::MaxSignaturesExceeded),
            txn_auth_signature_count(self@.authenticator) <= MAX_NUM_OF_SIGS
                && signature_verifies(self@) ==> (r matches Ok(t) && t@ == self@),
            txn_auth_signature_count(self@.authenticator) <= MAX_NUM_OF_SIGS
                && !signature_verifies(self@) ==> r == Err::<SignatureCheckedTransaction, _>(
                AuthenticationError::InvalidSignature,
            ),
    {
        match self.authenticator.verify(&self.raw_txn) {
            Ok(_) => Ok(SignatureCheckedTransaction(self)),
            Err(e) => Err(e),
        }
    }

    /// Verify the signature without consuming the envelope.
    pub fn verify_signature(&self) -> (r: Result<(), AuthenticationError>)
        ensures
            txn_auth_signature_count(self@.authenticator) > MAX_NUM_OF_SIGS ==> r == Err::<(), _>(
                AuthenticationError::MaxSignaturesExceeded,
            ),
            txn_auth_signature_count(self@.authenticator) <= MAX_NUM_OF_SIGS ==> (
            if signature_verifies(self@) {
                r == Ok::<(), AuthenticationError>(())
            } else {
                r == Err::<(), _>(AuthenticationError::InvalidSignature)
            }),
    {
        match self.authenticator.verify(&self.raw_txn) {
            Ok(_) => Ok(()),
            Err(e) => Err(e),
        }
    }
}

/// Whether the authenticator's signature verifies over the signing message
/// of the raw transaction it is attached to.
pub open spec fn signature_verifies(st: SignedTransactionView) -> bool {
    match st.authenticator {
        TransactionAuthenticatorView::Ed25519 { public_key, signature } => {
            ed25519_verifies(public_key, signing_message_bytes(st.raw_txn), signature)
        },
    }
}

/// A transaction whose signature has been verified: values of this type
/// exist only through `check_signature`, so code that receives one may
/// assume verification already happened.
#[derive(Clone, Debug)]
pub struct SignatureCheckedTransaction(SignedTransaction);

impl View for SignatureCheckedTransaction {
    type V = SignedTransactionView;

    closed spec fn view(&self) -> SignedTransactionView {
        self.0@
    }
}

impl SignatureCheckedTransaction {
    /// The signed transaction within.
    pub fn into_inner(self) -> (r: SignedTransaction)
        ensures
            r@ == self@,
    {
        self.0
    }

    /// The raw transaction within.
    pub fn into_raw_transaction(self) -> (r: RawTransaction)
        ensures
            r@ == self@.raw_txn,
    {
        self.0.into_raw_transaction()
    }
}

// ---------------------------------------------------------------------------
// The ledger transaction and the post-execution receipt.
// ---------------------------------------------------------------------------
/// A transaction as processed and persisted by the ledger. A single variant
/// today; the tag space is the extension point for system transactions.
#[derive(Clone, Debug)]
pub enum Transaction {
    /// A transaction submitted by a user.
    UserTransaction(SignedTransaction),
}

impl View for Transaction {
    type V = TransactionView;

    closed spec fn view(&self) -> TransactionView {
        match self {
            Transaction::UserTransaction(st) => TransactionView::UserTransaction(st@),
        }
    }
}

impl Transaction {
    /// The content hash of this transaction: the digest of its salted
    /// canonical encoding.
    pub fn hash(&self) -> (r: HashValue)
        ensures
            r@ == transaction_hash_bytes(self@),
    {
        match self {
            Transaction::UserTransaction(st) => st.compute_committed_hash(),
        }
    }
}

/// Where a Move abort arose: a module, named here by its address and its
/// plain-text name, or the script of the transaction itself.
#[derive(Clone, Debug)]
pub enum AbortLocation {
    /// An abort in a published module.
    Module { address: AccountAddress, name: Vec<u8> },
    /// An abort in the transaction script.
    Script,
}

/// Descriptive context attached to a Move abort.
#[derive(Clone, Debug)]
pub struct AbortInfo {
    pub reason_name: String,
    pub description: String,
}

/// The structured outcome of executing a transaction.
#[derive(Clone, Debug)]
pub enum ExecutionStatus {
    Success,
    OutOfGas,
    MoveAbort { location: AbortLocation, code: u64, info: Option<AbortInfo> },
    ExecutionFailure { location: AbortLocation, function: u16, code_offset: u16 },
    MiscellaneousError(Option<u64>),
}

/// The post-execution receipt stored in the transaction accumulator: a
/// versioned envelope.
#[derive(Clone, Debug)]
pub enum TransactionInfo {
    V0(TransactionInfoV0),
}

/// The current shape of the receipt: gas used, the structured outcome, and
/// the root hashes of the transaction, its events, and the state delta.
#[derive(Clone, Debug)]
pub struct TransactionInfoV0 {
    pub gas_used: u64,
    pub status: ExecutionStatus,
    pub transaction_hash: HashValue,
    pub event_root_hash: HashValue,
    pub state_change_hash: HashValue,
    pub state_checkpoint_hash: Option<HashValue>,
    pub state_cemetery_hash: Option<HashValue>,
}

/// A raw transaction together with the extra signers of a multi-agent
/// flow; reserved for the multi-agent and fee-payer extension points.
#[derive(Clone, Debug)]
pub enum RawTransactionWithData {
    MultiAgent { raw_txn: RawTransaction, secondary_signer_addresses: Vec<AccountAddress> },
    MultiAgentWithFeePayer {
        raw_txn: RawTransaction,
        secondary_signer_addresses: Vec<AccountAddress>,
        fee_payer_address: AccountAddress,
    },
}

} // verus!
