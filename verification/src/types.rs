//! Types that are not returned by the RPC server, but used as arguments/inputs of the RPC methods.
//!
//! Each type says in `json` what it is written as, and `to_json` writes it.
use vstd::prelude::*;

use crate::json::{
    array, bool_json, bool_view, items_view, members_view, object, optional_member, or_null,
    push_member, push_optional_member, text_json, text_view, u16_json, u16_view, u32_json, u32_view,
    unwrap_or_null, Json, JsonView, Ratio,
};
use crate::txid::{is_txid_text, txid_hash, txid_text, Txid};

verus! {

/// An amount of bitcoin, in satoshi.
#[derive(Clone, Copy, Debug, PartialEq, Eq)]
pub struct Amount {
    pub sat: u64,
}

/// A fee rate, in satoshi per 1000 weight units.
#[derive(Clone, Copy, Debug, PartialEq, Eq)]
pub struct FeeRate {
    pub sat_per_kwu: u64,
}

/// Models the arguments of JSON-RPC method `createrawtransaction`.
///
/// # Note
///
/// Assumes that the transaction is always "replaceable" by default and has a locktime of 0.
#[derive(Clone, Debug, PartialEq)]
pub struct CreateRawTransactionArguments {
    pub inputs: Vec<CreateRawTransactionInput>,
    pub outputs: Vec<CreateRawTransactionOutput>,
}

impl CreateRawTransactionArguments {
    /// What the arguments are written as.
    pub open spec fn json(self) -> JsonView {
        JsonView::Object(
            seq![("inputs"@, inputs_json(self.inputs@)), ("outputs"@, outputs_json(self.outputs@))],
        )
    }

    /// Writes the arguments.
    pub fn to_json(&self) -> (r: Json)
        ensures
            r@ == self.json(),
    {
        let mut inputs: Vec<Json> = Vec::new();
        let mut i: usize = 0;
        while i < self.inputs.len()
            invariant
                i <= self.inputs.len(),
                inputs@.len() == i,
                forall|j: int| 0 <= j < i ==> (#[trigger] inputs@[j])@ == self.inputs@[j].json(),
            decreases self.inputs.len() - i,
        {
            inputs.push(self.inputs[i].to_json());
            i = i + 1;
        }
        proof {
            assert(JsonView::Array(items_view(inputs@)) == inputs_json(self.inputs@)) by {
                assert(items_view(inputs@) =~= inputs_json(self.inputs@)->Array_0);
            }
        }
        let mut members: Vec<(String, Json)> = Vec::new();
        push_member(&mut members, "inputs", array(inputs));
        push_member(&mut members, "outputs", outputs_to_json(&self.outputs));
        proof {
            assert(members_view(members@) =~= self.json()->Object_0);
        }
        object(members)
    }
}

/// What a list of inputs is written as.
pub open spec fn inputs_json(inputs: Seq<CreateRawTransactionInput>) -> JsonView {
    JsonView::Array(inputs.map_values(|input: CreateRawTransactionInput| input.json()))
}

/// What a list of outputs is written as.
pub open spec fn outputs_json(outputs: Seq<CreateRawTransactionOutput>) -> JsonView {
    JsonView::Array(outputs.map_values(|output: CreateRawTransactionOutput| output.json()))
}

/// Writes a list of outputs.
fn outputs_to_json(outputs: &Vec<CreateRawTransactionOutput>) -> (r: Json)
    ensures
        r@ == outputs_json(outputs@),
{
    let mut items: Vec<Json> = Vec::new();
    let mut i: usize = 0;
    while i < outputs.len()
        invariant
            i <= outputs.len(),
            items@.len() == i,
            forall|j: int| 0 <= j < i ==> (#[trigger] items@[j])@ == outputs@[j].json(),
        decreases outputs.len() - i,
    {
        items.push(outputs[i].to_json());
        i = i + 1;
    }
    proof {
        assert(items_view(items@) =~= outputs_json(outputs@)->Array_0);
    }
    array(items)
}

/// Models the input of JSON-RPC method `createrawtransaction`.
#[derive(Clone, Debug, PartialEq, Eq)]
pub struct CreateRawTransactionInput {
    pub txid: String,
    pub vout: u32,
}

impl CreateRawTransactionInput {
    /// What the input is written as.
    pub open spec fn json(self) -> JsonView {
        JsonView::Object(
            seq![
                ("txid"@, JsonView::String(self.txid@)),
                ("vout"@, JsonView::Unsigned(self.vout as nat)),
            ],
        )
    }

    /// Writes the input.
    pub fn to_json(&self) -> (r: Json)
        ensures
            r@ == self.json(),
    {
        let mut members: Vec<(String, Json)> = Vec::new();
        push_member(&mut members, "txid", Json::String(self.txid.clone()));
        push_member(&mut members, "vout", Json::Unsigned(self.vout as u64));
        proof {
            assert(members_view(members@) =~= self.json()->Object_0);
        }
        object(members)
    }
}

/// Models transaction outputs for Bitcoin RPC methods.
///
/// Used by various RPC methods such as `createrawtransaction`, `psbtbumpfee`,
/// and `walletcreatefundedpsbt`. The outputs are specified as key-value pairs,
/// where the keys are addresses and the values are amounts to send.
#[derive(Clone, Debug, PartialEq)]
pub enum CreateRawTransactionOutput {
    /// A pair of an [`bitcoin::Address`] string and an amount in BTC.
    AddressAmount {
        /// An [`bitcoin::Address`] string.
        address: String,
        /// An amount in BTC.
        amount: serde_json::Number,
    },
    /// A payload such as in `OP_RETURN` transactions.
    Data {
        /// The payload.
        data: String,
    },
}

impl CreateRawTransactionOutput {
    /// What the output is written as: one member, which has the address as its name and the amount
    /// as its value, or the name `data` and the payload.
    pub open spec fn json(self) -> JsonView {
        match self {
            CreateRawTransactionOutput::AddressAmount { address, amount } => {
                JsonView::Object(seq![(address@, JsonView::Number(amount))])
            },
            CreateRawTransactionOutput::Data { data } => {
                JsonView::Object(seq![("data"@, JsonView::String(data@))])
            },
        }
    }

    /// Writes the output.
    pub fn to_json(&self) -> (r: Json)
        ensures
            r@ == self.json(),
    {
        let mut members: Vec<(String, Json)> = Vec::new();
        match self {
            CreateRawTransactionOutput::AddressAmount { address, amount } => {
                push_member(&mut members, address.as_str(), Json::Number(amount.clone()));
            },
            CreateRawTransactionOutput::Data { data } => {
                push_member(&mut members, "data", Json::String(data.clone()));
            },
        }
        proof {
            assert(members_view(members@) =~= self.json()->Object_0);
        }
        object(members)
    }
}

/// Models the optional previous transaction outputs argument for the method
/// `signrawtransactionwithwallet`.
///
/// These are the outputs that this transaction depends on but may not yet be in the block chain.
/// Widely used for One Parent One Child (1P1C) Relay in Bitcoin >28.0.
///
/// > transaction outputs
/// > [
/// > {                            (json object)
/// > "txid": "hex",             (string, required) The transaction id
/// > "vout": n,                 (numeric, required) The output number
/// > "scriptPubKey": "hex",     (string, required) The output script
/// > "redeemScript": "hex",     (string, optional) (required for P2SH) redeem script
/// > "witnessScript": "hex",    (string, optional) (required for P2WSH or P2SH-P2WSH) witness
/// > script
/// > "amount": amount,          (numeric or string, optional) (required for Segwit inputs) the
/// > amount spent
/// > },
/// > ...
/// > ]
#[derive(Clone, Debug, PartialEq)]
pub struct PreviousTransactionOutput {
    /// The transaction id.
    pub txid: Txid,
    /// The output number.
    pub vout: u32,
    /// The output script.
    pub script_pubkey: String,
    /// The redeem script.
    pub redeem_script: Option<String>,
    /// The witness script.
    pub witness_script: Option<String>,
    /// The amount spent.
    pub amount: Option<serde_json::Number>,
}

impl PreviousTransactionOutput {
    /// What the output is written as.
    pub open spec fn json(self) -> JsonView {
        JsonView::Object(
            seq![
                ("txid"@, JsonView::String(txid_text(self.txid.hash@))),
                ("vout"@, JsonView::Unsigned(self.vout as nat)),
                ("scriptPubKey"@, JsonView::String(self.script_pubkey@)),
                ("redeemScript"@, or_null(text_view(self.redeem_script))),
                ("witnessScript"@, or_null(text_view(self.witness_script))),
                ("amount"@, or_null(self.amount_view())),
            ],
        )
    }

    /// Writes the output.
    pub fn to_json(&self) -> (r: Json)
        ensures
            r@ == self.json(),
    {
        let mut members: Vec<(String, Json)> = Vec::new();
        push_member(&mut members, "txid", Json::String(self.txid.to_text()));
        push_member(&mut members, "vout", Json::Unsigned(self.vout as u64));
        push_member(&mut members, "scriptPubKey", Json::String(self.script_pubkey.clone()));
        push_member(&mut members, "redeemScript", unwrap_or_null(text_json(&self.redeem_script)));
        push_member(&mut members, "witnessScript", unwrap_or_null(text_json(&self.witness_script)));
        push_member(
            &mut members,
            "amount",
            match &self.amount {
                Some(amount) => Json::Number(amount.clone()),
                None => Json::Null,
            },
        );
        proof {
            assert(members_view(members@) =~= self.json()->Object_0);
        }
        object(members)
    }
}

/// Whether there is a member `name` among `members`, and `value` is what it says.
pub open spec fn member_is(
    members: Seq<(Seq<char>, JsonView)>,
    name: Seq<char>,
    value: JsonView,
) -> bool {
    &&& has_member(members, name)
    &&& forall|i: int|
        0 <= i < members.len() && (#[trigger] members[i]).0 == name ==> members[i].1 == value
}

/// Whether the member `name` says `value`; without a value it is `null` or not there.
pub open spec fn optional_member_is(
    members: Seq<(Seq<char>, JsonView)>,
    name: Seq<char>,
    value: Option<JsonView>,
) -> bool {
    member_is(members, name, or_null(value)) || value is None && !has_member(members, name)
}

impl PreviousTransactionOutput {
    /// The amount as a JSON number.
    pub open spec fn amount_view(self) -> Option<JsonView> {
        match self.amount {
            Some(amount) => Some(JsonView::Number(amount)),
            None => None,
        }
    }

    /// Whether `json` reads as this output: its members say what the fields hold, in any order, the
    /// transaction id as a text in either case.
    pub open spec fn is_read_from(self, json: JsonView) -> bool {
        json matches JsonView::Object(members) && {
            &&& exists|text: Seq<char>| #[trigger]
                member_is(members, "txid"@, JsonView::String(text)) && is_txid_text(text)
                    && txid_hash(text) == self.txid.hash@
            &&& member_is(members, "vout"@, JsonView::Unsigned(self.vout as nat))
            &&& member_is(members, "scriptPubKey"@, JsonView::String(self.script_pubkey@))
            &&& optional_member_is(members, "redeemScript"@, text_view(self.redeem_script))
            &&& optional_member_is(members, "witnessScript"@, text_view(self.witness_script))
            &&& optional_member_is(members, "amount"@, self.amount_view())
        }
    }

    /// Whether the two outputs are alike in every field.
    pub open spec fn is_like(self, other: PreviousTransactionOutput) -> bool {
        &&& self.txid.hash@ == other.txid.hash@
        &&& self.vout == other.vout
        &&& self.script_pubkey@ == other.script_pubkey@
        &&& text_view(self.redeem_script) == text_view(other.redeem_script)
        &&& text_view(self.witness_script) == text_view(other.witness_script)
        &&& self.amount == other.amount
    }
}

/// The names under which an output is written are all different.
proof fn lemma_output_names()
    ensures
        "txid"@ != "vout"@,
        "scriptPubKey"@ != "redeemScript"@,
        "txid"@.len() == 4,
        "vout"@.len() == 4,
        "scriptPubKey"@.len() == 12,
        "redeemScript"@.len() == 12,
        "witnessScript"@.len() == 13,
        "amount"@.len() == 6,
{
    reveal_strlit("txid");
    reveal_strlit("vout");
    reveal_strlit("scriptPubKey");
    reveal_strlit("redeemScript");
    reveal_strlit("witnessScript");
    reveal_strlit("amount");
    assert("txid"@[0] == 't');
    assert("vout"@[0] == 'v');
    assert("scriptPubKey"@[0] == 's');
    assert("redeemScript"@[0] == 'r');
}

/// Each member of a written output says what it was written with.
proof fn lemma_written_members(output: PreviousTransactionOutput)
    ensures
        output.json() matches JsonView::Object(members) && {
            &&& member_is(members, "txid"@, JsonView::String(txid_text(output.txid.hash@)))
            &&& member_is(members, "vout"@, JsonView::Unsigned(output.vout as nat))
            &&& member_is(members, "scriptPubKey"@, JsonView::String(output.script_pubkey@))
            &&& member_is(members, "redeemScript"@, or_null(text_view(output.redeem_script)))
            &&& member_is(members, "witnessScript"@, or_null(text_view(output.witness_script)))
            &&& member_is(members, "amount"@, or_null(output.amount_view()))
        },
{
    lemma_output_names();
    let members = output.json()->Object_0;
    assert(members.len() == 6);
    assert(members[0].0 == "txid"@);
    assert(members[1].0 == "vout"@);
    assert(members[2].0 == "scriptPubKey"@);
    assert(members[3].0 == "redeemScript"@);
    assert(members[4].0 == "witnessScript"@);
    assert(members[5].0 == "amount"@);
}

/// Two values of one member are the same.
proof fn lemma_member_is_one(
    members: Seq<(Seq<char>, JsonView)>,
    name: Seq<char>,
    a: JsonView,
    b: JsonView,
)
    requires
        member_is(members, name, a),
        member_is(members, name, b),
    ensures
        a == b,
{
    let i = choose|i: int| 0 <= i < members.len() && (#[trigger] members[i]).0 == name;
    assert(members[i].1 == a);
}

/// Reading what an output is written as gives the output back, and nothing else.
pub proof fn previous_outputs_are_read_back(
    written: PreviousTransactionOutput,
    read: PreviousTransactionOutput,
)
    ensures
        written.is_read_from(written.json()),
        read.is_read_from(written.json()) ==> read.is_like(written),
{
    let members = written.json()->Object_0;
    lemma_written_members(written);
    crate::txid::txid_round_trips(written.txid);
    assert(member_is(members, "txid"@, JsonView::String(txid_text(written.txid.hash@))));
    if read.is_read_from(written.json()) {
        let text = choose|text: Seq<char>| #[trigger]
            member_is(members, "txid"@, JsonView::String(text)) && is_txid_text(text) && txid_hash(
                text,
            ) == read.txid.hash@;
        lemma_member_is_one(
            members,
            "txid"@,
            JsonView::String(text),
            JsonView::String(txid_text(written.txid.hash@)),
        );
        lemma_member_is_one(
            members,
            "vout"@,
            JsonView::Unsigned(read.vout as nat),
            JsonView::Unsigned(written.vout as nat),
        );
        lemma_member_is_one(
            members,
            "scriptPubKey"@,
            JsonView::String(read.script_pubkey@),
            JsonView::String(written.script_pubkey@),
        );
        lemma_member_is_one(
            members,
            "redeemScript"@,
            or_null(text_view(read.redeem_script)),
            or_null(text_view(written.redeem_script)),
        );
        lemma_member_is_one(
            members,
            "witnessScript"@,
            or_null(text_view(read.witness_script)),
            or_null(text_view(written.witness_script)),
        );
        lemma_member_is_one(
            members,
            "amount"@,
            or_null(read.amount_view()),
            or_null(written.amount_view()),
        );
    }
}

/// Models the Descriptor in the result of the JSON-RPC method `importdescriptors`.
#[derive(Clone, Debug, PartialEq)]
pub struct ImportDescriptorInput {
    /// The descriptor.
    pub desc: String,
    /// Set this descriptor to be the active descriptor
    /// for the corresponding output type/externality.
    pub active: Option<bool>,
    /// Time from which to start rescanning the blockchain for this descriptor,
    /// in UNIX epoch time. Can also be a string "now"
    pub timestamp: String,
}

impl ImportDescriptorInput {
    /// What the descriptor is written as.
    pub open spec fn json(self) -> JsonView {
        JsonView::Object(
            seq![
                ("desc"@, JsonView::String(self.desc@)),
                ("active"@, or_null(bool_view(self.active))),
                ("timestamp"@, JsonView::String(self.timestamp@)),
            ],
        )
    }

    /// Writes the descriptor.
    pub fn to_json(&self) -> (r: Json)
        ensures
            r@ == self.json(),
    {
        let mut members: Vec<(String, Json)> = Vec::new();
        push_member(&mut members, "desc", Json::String(self.desc.clone()));
        push_member(&mut members, "active", unwrap_or_null(bool_json(self.active)));
        push_member(&mut members, "timestamp", Json::String(self.timestamp.clone()));
        proof {
            assert(members_view(members@) =~= self.json()->Object_0);
        }
        object(members)
    }
}

/// Models the `createwallet` JSON-RPC method.
///
/// # Note
///
/// This can also be used for the `loadwallet` JSON-RPC method.
#[derive(Clone, Debug, PartialEq)]
pub struct CreateWalletArguments {
    /// Wallet name
    pub name: String,
    /// Load on startup
    pub load_on_startup: Option<bool>,
}

impl CreateWalletArguments {
    /// What the arguments are written as.
    pub open spec fn json(self) -> JsonView {
        JsonView::Object(
            seq![
                ("name"@, JsonView::String(self.name@)),
                ("load_on_startup"@, or_null(bool_view(self.load_on_startup))),
            ],
        )
    }

    /// Writes the arguments.
    pub fn to_json(&self) -> (r: Json)
        ensures
            r@ == self.json(),
    {
        let mut members: Vec<(String, Json)> = Vec::new();
        push_member(&mut members, "name", Json::String(self.name.clone()));
        push_member(&mut members, "load_on_startup", unwrap_or_null(bool_json(self.load_on_startup)));
        proof {
            assert(members_view(members@) =~= self.json()->Object_0);
        }
        object(members)
    }
}

/// Shared options for transaction broadcast RPC methods.
#[derive(Clone, Debug, PartialEq, Eq)]
pub struct BroadcastOptions {
    /// Reject transactions whose fee rate is higher than this value.
    ///
    /// Bitcoin Core expects this value as BTC/kvB.
    pub max_fee_rate: Option<FeeRate>,
    /// Reject transactions whose provably unspendable outputs exceed this amount.
    ///
    /// Bitcoin Core expects this value as BTC.
    pub max_burn_amount: Option<Amount>,
}

impl Default for BroadcastOptions {
    fn default() -> (r: Self)
        ensures
            r.max_fee_rate is None,
            r.max_burn_amount is None,
    {
        BroadcastOptions { max_fee_rate: None, max_burn_amount: None }
    }
}

/// A fee rate in BTC per 1000 virtual bytes.
pub open spec fn btc_per_kvb(fee_rate: FeeRate) -> JsonView {
    JsonView::Ratio(fee_rate.sat_per_kwu as nat, 25_000_000)
}

/// A fee rate in satoshi per virtual byte.
pub open spec fn sat_per_vb(fee_rate: FeeRate) -> JsonView {
    JsonView::Ratio(fee_rate.sat_per_kwu as nat, 250)
}

/// An amount in BTC.
pub open spec fn btc(amount: Amount) -> JsonView {
    JsonView::Btc(amount.sat as nat)
}

impl BroadcastOptions {
    /// The options as positional parameters: the fee rate, then the amount. A missing option is
    /// `null` where another follows it, and left out at the end.
    pub open spec fn params(self) -> Seq<JsonView> {
        match (self.max_fee_rate, self.max_burn_amount) {
            (None, None) => seq![],
            (Some(max_fee_rate), None) => seq![btc_per_kvb(max_fee_rate)],
            (None, Some(max_burn_amount)) => seq![JsonView::Null, btc(max_burn_amount)],
            (Some(max_fee_rate), Some(max_burn_amount)) => {
                seq![btc_per_kvb(max_fee_rate), btc(max_burn_amount)]
            },
        }
    }

    /// Converts these options to positional Bitcoin Core RPC parameters.
    pub fn to_params(&self) -> (params: Vec<Json>)
        ensures
            items_view(params@) == self.params(),
    {
        let mut params: Vec<Json> = Vec::new();
        if self.max_fee_rate.is_none() && self.max_burn_amount.is_none() {
            proof {
                assert(items_view(params@) =~= self.params());
            }
            return params;
        }
        match self.max_fee_rate {
            Some(max_fee_rate) => {
                params.push(Json::Ratio(max_fee_rate_btc_per_kvb(max_fee_rate)));
            },
            None => {
                params.push(Json::Null);
            },
        }
        if let Some(max_burn_amount) = self.max_burn_amount {
            params.push(Json::Btc(max_burn_amount.sat));
        }
        proof {
            assert(items_view(params@) =~= self.params());
        }
        params
    }
}

/// A fee rate in BTC per 1000 virtual bytes.
pub fn max_fee_rate_btc_per_kvb(max_fee_rate: FeeRate) -> (r: Ratio)
    ensures
        r.numerator == max_fee_rate.sat_per_kwu,
        r.denominator == 25_000_000,
{
    Ratio { numerator: max_fee_rate.sat_per_kwu, denominator: 25_000_000 }
}

/// Options for the `sendrawtransaction` RPC method.
pub type SendRawTransactionOptions = BroadcastOptions;

/// An optional amount in BTC.
pub open spec fn optional_btc(amount: Option<Amount>) -> Option<JsonView> {
    match amount {
        Some(a) => Some(btc(a)),
        None => None,
    }
}

/// Serializes the optional [`Amount`] into BTC.
pub fn serialize_option_bitcoin(amount: &Option<Amount>) -> (r: Json)
    ensures
        r@ == or_null(optional_btc(*amount)),
{
    match amount {
        Some(a) => Json::Btc(a.sat),
        None => Json::Null,
    }
}

/// An optional fee rate in satoshi per virtual byte.
pub open spec fn optional_sat_per_vb(fee_rate: Option<FeeRate>) -> Option<JsonView> {
    match fee_rate {
        Some(rate) => Some(sat_per_vb(rate)),
        None => None,
    }
}

/// Serializes the optional [`FeeRate`] into sat/vB.
///
/// Bitcoin Core's `fee_rate` option (e.g. for `walletcreatefundedpsbt` and `psbtbumpfee`) is
/// expressed in sat/vB, while [`FeeRate`] stores its value internally in sat/kwu
/// (250 sat/kwu = 1 sat/vB). Serializing the value as a fractional sat/vB number preserves
/// sub-1 sat/vB fee rates.
pub fn serialize_option_fee_rate(fee_rate: &Option<FeeRate>) -> (r: Json)
    ensures
        r@ == or_null(optional_sat_per_vb(*fee_rate)),
{
    match fee_rate {
        Some(rate) => Json::Ratio(Ratio { numerator: rate.sat_per_kwu, denominator: 250 }),
        None => Json::Null,
    }
}

/// The optional [`FeeRate`] in sat/vB, where it is there.
fn fee_rate_json(fee_rate: &Option<FeeRate>) -> (r: Option<Json>)
    ensures
        crate::json::optional_view(r) == optional_sat_per_vb(*fee_rate),
{
    if fee_rate.is_some() {
        Some(serialize_option_fee_rate(fee_rate))
    } else {
        None
    }
}

/// Signature hash types for Bitcoin transactions.
///
/// These types specify which parts of a transaction are included in the signature
/// hash calculation when signing transaction inputs. Used with wallet signing
/// operations like `walletprocesspsbt`.
///
/// # Note
///
/// These correspond to the SIGHASH flags defined in Bitcoin's script system
/// and BIP 143 (witness transaction digest).
#[derive(Clone, Debug, PartialEq, Eq)]
pub enum SighashType {
    /// Use the default signature hash type (equivalent to SIGHASH_ALL).
    Default,
    /// Sign all inputs and all outputs of the transaction.
    ///
    /// This is the most common and secure signature type, ensuring the entire
    /// transaction structure cannot be modified after signing.
    All,
    /// Sign all inputs but no outputs (SIGHASH_NONE).
    ///
    /// Allows outputs to be modified after signing, useful for donation scenarios
    /// where the exact destination amounts can be adjusted.
    NoOutputs,
    /// Sign all inputs and the output with the same index as this input.
    ///
    /// Used in scenarios where multiple parties contribute inputs and want to
    /// ensure their corresponding output is protected.
    Single,
    /// Combination of SIGHASH_ALL with ANYONECANPAY flag.
    ///
    /// Signs all outputs but only this specific input, allowing other inputs
    /// to be added or removed. Useful for crowdfunding transactions.
    AllPlusAnyoneCanPay,
    /// Combination of SIGHASH_NONE with ANYONECANPAY flag.
    ///
    /// Signs only this specific input with no outputs committed, providing
    /// maximum flexibility for transaction modification.
    NonePlusAnyoneCanPay,
    /// Combination of SIGHASH_SINGLE with ANYONECANPAY flag.
    ///
    /// Signs only this input and its corresponding output, allowing other
    /// inputs and outputs to be modified independently.
    SinglePlusAnyoneCanPay,
}

impl SighashType {
    /// The name that the type is written as.
    pub open spec fn name(self) -> Seq<char> {
        match self {
            SighashType::Default => "DEFAULT"@,
            SighashType::All => "ALL"@,
            SighashType::NoOutputs => "NONE"@,
            SighashType::Single => "SINGLE"@,
            SighashType::AllPlusAnyoneCanPay => "ALL|ANYONECANPAY"@,
            SighashType::NonePlusAnyoneCanPay => "NONE|ANYONECANPAY"@,
            SighashType::SinglePlusAnyoneCanPay => "SINGLE|ANYONECANPAY"@,
        }
    }

    /// Writes the type.
    pub fn to_json(&self) -> (r: Json)
        ensures
            r@ == JsonView::String(self.name()),
    {
        let name = match self {
            SighashType::Default => "DEFAULT",
            SighashType::All => "ALL",
            SighashType::NoOutputs => "NONE",
            SighashType::Single => "SINGLE",
            SighashType::AllPlusAnyoneCanPay => "ALL|ANYONECANPAY",
            SighashType::NonePlusAnyoneCanPay => "NONE|ANYONECANPAY",
            SighashType::SinglePlusAnyoneCanPay => "SINGLE|ANYONECANPAY",
        };
        Json::String(name.to_string())
    }
}

/// Options for creating a funded PSBT with wallet inputs.
///
/// Used with `wallet_create_funded_psbt` to control funding behavior,
/// fee estimation, and transaction policies when the wallet automatically
/// selects inputs to fund the specified outputs.
///
/// # Note
///
/// All fields are optional and will use Bitcoin Core defaults if not specified.
/// Fee rate takes precedence over confirmation target if both are provided.
#[derive(Clone, Debug, PartialEq)]
pub struct WalletCreateFundedPsbtOptions {
    /// Fee rate in sat/vB (satoshis per virtual byte) for the transaction.
    ///
    /// If specified, this overrides the `conf_target` parameter for fee estimation.
    /// Must be a positive value representing the desired fee density.
    pub fee_rate: Option<FeeRate>,
    /// Whether to lock the selected UTXOs to prevent them from being spent by other transactions.
    ///
    /// When `true`, the wallet will temporarily lock the selected unspent outputs
    /// until the transaction is broadcast or manually unlocked. Default is `false`.
    pub lock_unspents: Option<bool>,
    /// Target number of confirmations for automatic fee estimation.
    ///
    /// Represents the desired number of blocks within which the transaction should
    /// be confirmed. Higher values result in lower fees but longer confirmation times.
    /// Ignored if `fee_rate` is specified.
    pub conf_target: Option<u16>,
    /// Whether the transaction should be BIP-125 opt-in Replace-By-Fee (RBF) enabled.
    ///
    /// When `true`, allows the transaction to be replaced with a higher-fee version
    /// before confirmation. Useful for fee bumping if the initial fee proves insufficient.
    pub replaceable: Option<bool>,
}

impl Default for WalletCreateFundedPsbtOptions {
    fn default() -> (r: Self)
        ensures
            r.fee_rate is None,
            r.lock_unspents is None,
            r.conf_target is None,
            r.replaceable is None,
    {
        WalletCreateFundedPsbtOptions {
            fee_rate: None,
            lock_unspents: None,
            conf_target: None,
            replaceable: None,
        }
    }
}

impl WalletCreateFundedPsbtOptions {
    /// What the options are written as: those that are there.
    pub open spec fn json(self) -> JsonView {
        JsonView::Object(
            optional_member("fee_rate"@, optional_sat_per_vb(self.fee_rate)) + optional_member(
                "lockUnspents"@,
                bool_view(self.lock_unspents),
            ) + optional_member("conf_target"@, u16_view(self.conf_target)) + optional_member(
                "replaceable"@,
                bool_view(self.replaceable),
            ),
        )
    }

    /// Writes the options.
    pub fn to_json(&self) -> (r: Json)
        ensures
            r@ == self.json(),
    {
        let mut members: Vec<(String, Json)> = Vec::new();
        push_optional_member(&mut members, "fee_rate", fee_rate_json(&self.fee_rate));
        push_optional_member(&mut members, "lockUnspents", bool_json(self.lock_unspents));
        push_optional_member(&mut members, "conf_target", u16_json(self.conf_target));
        push_optional_member(&mut members, "replaceable", bool_json(self.replaceable));
        proof {
            assert(members_view(members@) =~= self.json()->Object_0);
        }
        object(members)
    }
}

/// Query options for filtering unspent transaction outputs.
///
/// Used with `list_unspent` to apply additional filtering criteria
/// beyond confirmation counts and addresses, allowing precise UTXO selection
/// based on amount ranges and result limits.
///
/// # Note
///
/// All fields are optional and can be combined. UTXOs must satisfy all
/// specified criteria to be included in the results.
#[derive(Clone, Debug, PartialEq)]
pub struct ListUnspentQueryOptions {
    /// Minimum amount that UTXOs must have to be included.
    ///
    /// Only unspent outputs with a value greater than or equal to this amount
    /// will be returned. Useful for filtering out dust or very small UTXOs.
    pub minimum_amount: Option<Amount>,
    /// Maximum amount that UTXOs can have to be included.
    ///
    /// Only unspent outputs with a value less than or equal to this amount
    /// will be returned. Useful for finding smaller UTXOs or avoiding large ones.
    pub maximum_amount: Option<Amount>,
    /// Maximum number of UTXOs to return in the result set.
    ///
    /// Limits the total number of unspent outputs returned, regardless of how many
    /// match the other criteria. Useful for pagination or limiting response size.
    pub maximum_count: Option<u32>,
}

impl ListUnspentQueryOptions {
    /// What the options are written as; those that are missing are `null`.
    pub open spec fn json(self) -> JsonView {
        JsonView::Object(
            seq![
                ("minimumAmount"@, or_null(optional_btc(self.minimum_amount))),
                ("maximumAmount"@, or_null(optional_btc(self.maximum_amount))),
                ("maximumCount"@, or_null(u32_view(self.maximum_count))),
            ],
        )
    }

    /// Writes the options.
    pub fn to_json(&self) -> (r: Json)
        ensures
            r@ == self.json(),
    {
        let mut members: Vec<(String, Json)> = Vec::new();
        push_member(&mut members, "minimumAmount", serialize_option_bitcoin(&self.minimum_amount));
        push_member(&mut members, "maximumAmount", serialize_option_bitcoin(&self.maximum_amount));
        push_member(&mut members, "maximumCount", unwrap_or_null(u32_json(self.maximum_count)));
        proof {
            assert(members_view(members@) =~= self.json()->Object_0);
        }
        object(members)
    }
}

/// Options for psbtbumpfee RPC method.
#[derive(Clone, Debug, PartialEq)]
pub struct PsbtBumpFeeOptions {
    /// Confirmation target in blocks.
    pub conf_target: Option<u16>,
    /// Fee rate in sat/vB.
    pub fee_rate: Option<FeeRate>,
    /// Whether the new transaction should be BIP-125 replaceable.
    pub replaceable: Option<bool>,
    /// Fee estimate mode ("unset", "economical", "conservative").
    pub estimate_mode: Option<String>,
    /// New transaction outputs to replace the existing ones.
    pub outputs: Option<Vec<CreateRawTransactionOutput>>,
    /// Index of the change output to recycle from the original transaction.
    pub original_change_index: Option<u32>,
}

impl Default for PsbtBumpFeeOptions {
    fn default() -> (r: Self)
        ensures
            r.conf_target is None,
            r.fee_rate is None,
            r.replaceable is None,
            r.estimate_mode is None,
            r.outputs is None,
            r.original_change_index is None,
    {
        PsbtBumpFeeOptions {
            conf_target: None,
            fee_rate: None,
            replaceable: None,
            estimate_mode: None,
            outputs: None,
            original_change_index: None,
        }
    }
}

/// An optional list of outputs.
pub open spec fn optional_outputs(outputs: Option<Vec<CreateRawTransactionOutput>>) -> Option<
    JsonView,
> {
    match outputs {
        Some(list) => Some(outputs_json(list@)),
        None => None,
    }
}

impl PsbtBumpFeeOptions {
    /// What the options are written as: those that are there.
    pub open spec fn json(self) -> JsonView {
        JsonView::Object(
            optional_member("conf_target"@, u16_view(self.conf_target)) + optional_member(
                "fee_rate"@,
                optional_sat_per_vb(self.fee_rate),
            ) + optional_member("replaceable"@, bool_view(self.replaceable)) + optional_member(
                "estimate_mode"@,
                text_view(self.estimate_mode),
            ) + optional_member("outputs"@, optional_outputs(self.outputs)) + optional_member(
                "original_change_index"@,
                u32_view(self.original_change_index),
            ),
        )
    }

    /// Writes the options.
    pub fn to_json(&self) -> (r: Json)
        ensures
            r@ == self.json(),
    {
        let mut members: Vec<(String, Json)> = Vec::new();
        push_optional_member(&mut members, "conf_target", u16_json(self.conf_target));
        push_optional_member(&mut members, "fee_rate", fee_rate_json(&self.fee_rate));
        push_optional_member(&mut members, "replaceable", bool_json(self.replaceable));
        push_optional_member(&mut members, "estimate_mode", text_json(&self.estimate_mode));
        let outputs = match &self.outputs {
            Some(list) => Some(outputs_to_json(list)),
            None => None,
        };
        push_optional_member(&mut members, "outputs", outputs);
        push_optional_member(
            &mut members,
            "original_change_index",
            u32_json(self.original_change_index),
        );
        proof {
            assert(members_view(members@) =~= self.json()->Object_0);
        }
        object(members)
    }
}

/// A fee rate of 250 sat/kwu is one of 1 sat/vB, and the number that a fee rate is written as in
/// sat/vB gives the fee rate back, also below 1 sat/vB: for every fee rate, the quotient times 250
/// is its sat/kwu.
pub proof fn fee_rate_round_trips(fee_rate: FeeRate)
    ensures
        sat_per_vb(fee_rate) matches JsonView::Ratio(n, d) && d > 0 && n * 250
            == fee_rate.sat_per_kwu * d,
{
}

/// Different fee rates are written as different numbers.
pub proof fn fee_rates_are_told_apart(a: FeeRate, b: FeeRate)
    requires
        sat_per_vb(a) == sat_per_vb(b) || btc_per_kvb(a) == btc_per_kvb(b),
    ensures
        a == b,
{
}

/// The two units of a fee rate agree: 1 BTC/kvB is 100 000 sat/vB.
pub proof fn fee_rate_units_agree(fee_rate: FeeRate)
    ensures
        sat_per_vb(fee_rate) matches JsonView::Ratio(vb_n, vb_d) && btc_per_kvb(fee_rate) matches
            JsonView::Ratio(kvb_n, kvb_d) && vb_d > 0 && kvb_d > 0 && vb_n * kvb_d == 100_000 * kvb_n
            * vb_d,
{
}

/// An amount is written as its satoshi over the hundred million that make a BTC, and amounts that
/// differ are written differently.
pub proof fn amounts_are_written_in_btc(a: Amount, b: Amount)
    ensures
        btc(a).quotient() == Some((a.sat as nat, 100_000_000nat)),
        btc(a) == btc(b) ==> a.sat == b.sat,
{
}

/// Each option has its own position, whether the other is there or not: the fee rate is the first
/// parameter and the amount the second. Nothing follows what is there.
pub proof fn broadcast_options_keep_their_positions(options: BroadcastOptions)
    ensures
        options.max_fee_rate matches Some(rate) ==> options.params().len() > 0 && options.params()[0]
            == btc_per_kvb(rate),
        options.max_fee_rate is None && options.params().len() > 0 ==> options.params()[0]
            == JsonView::Null,
        options.max_burn_amount matches Some(amount) ==> options.params().len() == 2
            && options.params()[1] == btc(amount),
        options.max_burn_amount is None ==> options.params().len() <= 1,
        options.params().len() == 0 <==> options.max_fee_rate is None
            && options.max_burn_amount is None,
{
}

/// Whether there is a member `name` among `members`.
pub open spec fn has_member(members: Seq<(Seq<char>, JsonView)>, name: Seq<char>) -> bool {
    exists|i: int| 0 <= i < members.len() && (#[trigger] members[i]).0 == name
}

/// The members of two lists are those of the one and those of the other.
proof fn lemma_has_member_concat(
    a: Seq<(Seq<char>, JsonView)>,
    b: Seq<(Seq<char>, JsonView)>,
    name: Seq<char>,
)
    ensures
        has_member(a + b, name) <==> has_member(a, name) || has_member(b, name),
{
    if has_member(a, name) {
        let i = choose|i: int| 0 <= i < a.len() && (#[trigger] a[i]).0 == name;
        assert((a + b)[i] == a[i]);
    }
    if has_member(b, name) {
        let i = choose|i: int| 0 <= i < b.len() && (#[trigger] b[i]).0 == name;
        assert((a + b)[a.len() + i] == b[i]);
    }
    if has_member(a + b, name) {
        let i = choose|i: int| 0 <= i < (a + b).len() && (#[trigger] (a + b)[i]).0 == name;
        if i < a.len() {
            assert(a[i].0 == name);
        } else {
            assert(b[i - a.len()].0 == name);
        }
    }
}

/// An optional member is there under its name where it has a value.
proof fn lemma_has_optional_member(member: Seq<char>, value: Option<JsonView>, name: Seq<char>)
    ensures
        has_member(optional_member(member, value), name) <==> value is Some && member == name,
{
    if value is Some && member == name {
        assert(optional_member(member, value)[0].0 == name);
    }
}

/// The names under which the options for funding and bumping are written are all different.
proof fn lemma_option_names()
    ensures
        "fee_rate"@ != "lockUnspents"@,
        "fee_rate"@ != "conf_target"@,
        "fee_rate"@ != "replaceable"@,
        "fee_rate"@ != "estimate_mode"@,
        "fee_rate"@ != "outputs"@,
        "fee_rate"@ != "original_change_index"@,
        "lockUnspents"@ != "conf_target"@,
        "lockUnspents"@ != "replaceable"@,
        "conf_target"@ != "replaceable"@,
        "conf_target"@ != "estimate_mode"@,
        "conf_target"@ != "outputs"@,
        "conf_target"@ != "original_change_index"@,
        "replaceable"@ != "estimate_mode"@,
        "replaceable"@ != "outputs"@,
        "replaceable"@ != "original_change_index"@,
        "estimate_mode"@ != "outputs"@,
        "estimate_mode"@ != "original_change_index"@,
        "outputs"@ != "original_change_index"@,
{
    reveal_strlit("fee_rate");
    reveal_strlit("lockUnspents");
    reveal_strlit("conf_target");
    reveal_strlit("replaceable");
    reveal_strlit("estimate_mode");
    reveal_strlit("outputs");
    reveal_strlit("original_change_index");
    assert("fee_rate"@.len() == 8);
    assert("lockUnspents"@.len() == 12);
    assert("conf_target"@.len() == 11);
    assert("replaceable"@.len() == 11);
    assert("estimate_mode"@.len() == 13);
    assert("outputs"@.len() == 7);
    assert("original_change_index"@.len() == 21);
    assert("conf_target"@[0] == 'c');
    assert("replaceable"@[0] == 'r');
}

/// An option for funding a PSBT that is not given is not written, and one that is given is: what is
/// left out is up to Bitcoin Core.
pub proof fn missing_funding_options_are_left_out(options: WalletCreateFundedPsbtOptions)
    ensures
        options.json() matches JsonView::Object(members) && {
            &&& has_member(members, "fee_rate"@) <==> options.fee_rate is Some
            &&& has_member(members, "lockUnspents"@) <==> options.lock_unspents is Some
            &&& has_member(members, "conf_target"@) <==> options.conf_target is Some
            &&& has_member(members, "replaceable"@) <==> options.replaceable is Some
        },
{
    lemma_option_names();
    let a = optional_member("fee_rate"@, optional_sat_per_vb(options.fee_rate));
    let b = optional_member("lockUnspents"@, bool_view(options.lock_unspents));
    let c = optional_member("conf_target"@, u16_view(options.conf_target));
    let d = optional_member("replaceable"@, bool_view(options.replaceable));
    assert forall|name: Seq<char>| #[trigger]
        has_member(a + b + c + d, name) <==> has_member(a, name) || has_member(b, name)
            || has_member(c, name) || has_member(d, name) by {
        lemma_has_member_concat(a, b, name);
        lemma_has_member_concat(a + b, c, name);
        lemma_has_member_concat(a + b + c, d, name);
    }
    assert forall|name: Seq<char>|
        (#[trigger] has_member(a, name) <==> options.fee_rate is Some && name == "fee_rate"@) by {
        lemma_has_optional_member("fee_rate"@, optional_sat_per_vb(options.fee_rate), name);
    }
    assert forall|name: Seq<char>|
        (#[trigger] has_member(b, name) <==> options.lock_unspents is Some && name
            == "lockUnspents"@) by {
        lemma_has_optional_member("lockUnspents"@, bool_view(options.lock_unspents), name);
    }
    assert forall|name: Seq<char>|
        (#[trigger] has_member(c, name) <==> options.conf_target is Some && name
            == "conf_target"@) by {
        lemma_has_optional_member("conf_target"@, u16_view(options.conf_target), name);
    }
    assert forall|name: Seq<char>|
        (#[trigger] has_member(d, name) <==> options.replaceable is Some && name
            == "replaceable"@) by {
        lemma_has_optional_member("replaceable"@, bool_view(options.replaceable), name);
    }
}

/// An option for bumping a fee that is not given is not written, and one that is given is.
pub proof fn missing_bumping_options_are_left_out(options: PsbtBumpFeeOptions)
    ensures
        options.json() matches JsonView::Object(members) && {
            &&& has_member(members, "conf_target"@) <==> options.conf_target is Some
            &&& has_member(members, "fee_rate"@) <==> options.fee_rate is Some
            &&& has_member(members, "replaceable"@) <==> options.replaceable is Some
            &&& has_member(members, "estimate_mode"@) <==> options.estimate_mode is Some
            &&& has_member(members, "outputs"@) <==> options.outputs is Some
            &&& has_member(members, "original_change_index"@)
                <==> options.original_change_index is Some
        },
{
    lemma_option_names();
    let a = optional_member("conf_target"@, u16_view(options.conf_target));
    let b = optional_member("fee_rate"@, optional_sat_per_vb(options.fee_rate));
    let c = optional_member("replaceable"@, bool_view(options.replaceable));
    let d = optional_member("estimate_mode"@, text_view(options.estimate_mode));
    let e = optional_member("outputs"@, optional_outputs(options.outputs));
    let f = optional_member("original_change_index"@, u32_view(options.original_change_index));
    assert forall|name: Seq<char>| #[trigger]
        has_member(a + b + c + d + e + f, name) <==> has_member(a, name) || has_member(b, name)
            || has_member(c, name) || has_member(d, name) || has_member(e, name) || has_member(
            f,
            name,
        ) by {
        lemma_has_member_concat(a, b, name);
        lemma_has_member_concat(a + b, c, name);
        lemma_has_member_concat(a + b + c, d, name);
        lemma_has_member_concat(a + b + c + d, e, name);
        lemma_has_member_concat(a + b + c + d + e, f, name);
    }
    assert forall|name: Seq<char>|
        (#[trigger] has_member(a, name) <==> options.conf_target is Some && name
            == "conf_target"@) by {
        lemma_has_optional_member("conf_target"@, u16_view(options.conf_target), name);
    }
    assert forall|name: Seq<char>|
        (#[trigger] has_member(b, name) <==> options.fee_rate is Some && name == "fee_rate"@) by {
        lemma_has_optional_member("fee_rate"@, optional_sat_per_vb(options.fee_rate), name);
    }
    assert forall|name: Seq<char>|
        (#[trigger] has_member(c, name) <==> options.replaceable is Some && name
            == "replaceable"@) by {
        lemma_has_optional_member("replaceable"@, bool_view(options.replaceable), name);
    }
    assert forall|name: Seq<char>|
        (#[trigger] has_member(d, name) <==> options.estimate_mode is Some && name
            == "estimate_mode"@) by {
        lemma_has_optional_member("estimate_mode"@, text_view(options.estimate_mode), name);
    }
    assert forall|name: Seq<char>|
        (#[trigger] has_member(e, name) <==> options.outputs is Some && name == "outputs"@) by {
        lemma_has_optional_member("outputs"@, optional_outputs(options.outputs), name);
    }
    assert forall|name: Seq<char>|
        (#[trigger] has_member(f, name) <==> options.original_change_index is Some && name
            == "original_change_index"@) by {
        lemma_has_optional_member(
            "original_change_index"@,
            u32_view(options.original_change_index),
            name,
        );
    }
}

} // verus!
