//! What the arguments of RPC methods are written as, field by field.
//!
//! `call_ensures(f, args, r)` says that `r` is what `f` gave back for `args`.
use vstd::prelude::*;

use crate::document::hex_char;
use crate::json::{Json, JsonView, Ratio};
use crate::txid::{deserialize_txid, hex_value, is_hex_digit, txid_text, Txid};
use crate::types::{
    max_fee_rate_btc_per_kvb, serialize_option_bitcoin, serialize_option_fee_rate, Amount, BroadcastOptions,
    CreateRawTransactionArguments, CreateRawTransactionInput, CreateRawTransactionOutput,
    CreateWalletArguments, FeeRate, ImportDescriptorInput, ListUnspentQueryOptions,
    PreviousTransactionOutput, PsbtBumpFeeOptions, SighashType, WalletCreateFundedPsbtOptions,
};

verus! {

/// What a JSON value can say.
pub enum Said {
    Nothing,
    Truth(bool),
    Count(nat),
    /// A quotient in floating point.
    Quotient(nat, nat),
    /// An amount in satoshi, written in BTC.
    Satoshi(nat),
    /// A number that the caller gave.
    Given(serde_json::Number),
    Text(Seq<char>),
}

/// Whether `json` says just this.
pub open spec fn says(json: Json, said: Said) -> bool {
    match said {
        Said::Nothing => json is Null,
        Said::Truth(b) => json == Json::Bool(b),
        Said::Count(n) => json matches Json::Unsigned(m) && m == n,
        Said::Quotient(n, d) => json matches Json::Ratio(q) && q.numerator == n && q.denominator == d,
        Said::Satoshi(n) => json matches Json::Btc(sat) && sat == n,
        Said::Given(number) => json == Json::Number(number),
        Said::Text(text) => json matches Json::String(s) && s@ == text,
    }
}

/// What an optional truth value says; a missing one says nothing.
pub open spec fn truth(value: Option<bool>) -> Said {
    match value {
        Some(b) => Said::Truth(b),
        None => Said::Nothing,
    }
}

/// What an optional text says; a missing one says nothing.
pub open spec fn text(value: Option<String>) -> Said {
    match value {
        Some(s) => Said::Text(s@),
        None => Said::Nothing,
    }
}

/// What an optional amount says: its satoshi.
pub open spec fn satoshi(value: Option<Amount>) -> Said {
    match value {
        Some(amount) => Said::Satoshi(amount.sat as nat),
        None => Said::Nothing,
    }
}

/// What an optional fee rate says in sat/vB: 250 sat/kwu are one.
pub open spec fn per_vb(value: Option<FeeRate>) -> Said {
    match value {
        Some(rate) => Said::Quotient(rate.sat_per_kwu as nat, 250),
        None => Said::Nothing,
    }
}

/// Whether the member at position `i` has this name and says this.
pub open spec fn member_says(
    members: Seq<(String, Json)>,
    i: int,
    name: Seq<char>,
    said: Said,
) -> bool {
    0 <= i < members.len() && members[i].0@ == name && says(members[i].1, said)
}

/// Whether one of the members has this name and says this.
pub open spec fn some_member_says(
    members: Seq<(String, Json)>,
    name: Seq<char>,
    said: Said,
) -> bool {
    exists|i: int| #[trigger] member_says(members, i, name, said)
}

/// The view of what is said.
spec fn said_view(said: Said) -> JsonView {
    match said {
        Said::Nothing => JsonView::Null,
        Said::Truth(b) => JsonView::Bool(b),
        Said::Count(n) => JsonView::Unsigned(n),
        Said::Quotient(n, d) => JsonView::Ratio(n, d),
        Said::Satoshi(n) => JsonView::Btc(n),
        Said::Given(number) => JsonView::Number(number),
        Said::Text(text) => JsonView::String(text),
    }
}

/// A value says what its view shows.
proof fn lemma_says(json: Json, said: Said)
    requires
        json@ == said_view(said),
    ensures
        says(json, said),
{
    reveal_with_fuel(<Json as View>::view, 2);
}

/// The members of an object are those that its view shows.
proof fn lemma_object(json: Json, seen: Seq<(Seq<char>, JsonView)>)
    requires
        json@ == JsonView::Object(seen),
    ensures
        json matches Json::Object(members) && members@.len() == seen.len() && forall|i: int|
            0 <= i < seen.len() ==> (#[trigger] members@[i]).0@ == seen[i].0 && members@[i].1@
                == seen[i].1,
{
    reveal_with_fuel(<Json as View>::view, 2);
    let members = json->Object_0;
    assert forall|i: int| 0 <= i < seen.len() implies (#[trigger] members@[i]).0@ == seen[i].0
        && members@[i].1@ == seen[i].1 by {
        assert(seen[i] == (members@[i].0@, members@[i].1.view()));
    }
}

/// The items of an array are those that its view shows.
proof fn lemma_array(json: Json, seen: Seq<JsonView>)
    requires
        json@ == JsonView::Array(seen),
    ensures
        json matches Json::Array(items) && items@.len() == seen.len() && forall|i: int|
            0 <= i < seen.len() ==> (#[trigger] items@[i])@ == seen[i],
{
    reveal_with_fuel(<Json as View>::view, 2);
    let items = json->Array_0;
    assert forall|i: int| 0 <= i < seen.len() implies (#[trigger] items@[i])@ == seen[i] by {
        assert(seen[i] == items@[i].view());
    }
}

/// A member of an object says what its view shows.
proof fn lemma_member(
    json: Json,
    seen: Seq<(Seq<char>, JsonView)>,
    i: int,
    name: Seq<char>,
    said: Said,
)
    requires
        json@ == JsonView::Object(seen),
        0 <= i < seen.len(),
        seen[i] == (name, said_view(said)),
    ensures
        json matches Json::Object(members) && members@.len() == seen.len() && member_says(
            members@,
            i,
            name,
            said,
        ),
{
    lemma_object(json, seen);
    let members = json->Object_0;
    assert(members@[i].1@ == seen[i].1);
    lemma_says(members@[i].1, said);
}

/// Whether `json` is the input: an object with its transaction id and its output number.
pub open spec fn is_input(json: Json, input: CreateRawTransactionInput) -> bool {
    json matches Json::Object(members) && members@.len() == 2 && member_says(
        members@,
        0,
        "txid"@,
        Said::Text(input.txid@),
    ) && member_says(members@, 1, "vout"@, Said::Count(input.vout as nat))
}

/// An input is written with its transaction id and its output number.
pub proof fn inputs_are_written(input: CreateRawTransactionInput, r: Json)
    requires
        call_ensures(CreateRawTransactionInput::to_json, (&input,), r),
    ensures
        is_input(r, input),
{
    lemma_input(r, input);
}

/// An input, through its view.
proof fn lemma_input(json: Json, input: CreateRawTransactionInput)
    requires
        json@ == input.json(),
    ensures
        is_input(json, input),
{
    let seen = input.json()->Object_0;
    lemma_member(json, seen, 0, "txid"@, Said::Text(input.txid@));
    lemma_member(json, seen, 1, "vout"@, Said::Count(input.vout as nat));
}

/// Whether `json` is the output: an object with one member, which is the amount under the address,
/// or the payload under `data`.
pub open spec fn is_output(json: Json, output: CreateRawTransactionOutput) -> bool {
    json matches Json::Object(members) && members@.len() == 1 && match output {
        CreateRawTransactionOutput::AddressAmount { address, amount } => {
            member_says(members@, 0, address@, Said::Given(amount))
        },
        CreateRawTransactionOutput::Data { data } => {
            member_says(members@, 0, "data"@, Said::Text(data@))
        },
    }
}

/// An output is written with its address and amount, or with its payload.
pub proof fn outputs_are_written(output: CreateRawTransactionOutput, r: Json)
    requires
        call_ensures(CreateRawTransactionOutput::to_json, (&output,), r),
    ensures
        is_output(r, output),
{
    lemma_output(r, output);
}

/// An output, through its view.
proof fn lemma_output(json: Json, output: CreateRawTransactionOutput)
    requires
        json@ == output.json(),
    ensures
        is_output(json, output),
{
    let seen = output.json()->Object_0;
    match output {
        CreateRawTransactionOutput::AddressAmount { address, amount } => {
            lemma_member(json, seen, 0, address@, Said::Given(amount));
        },
        CreateRawTransactionOutput::Data { data } => {
            lemma_member(json, seen, 0, "data"@, Said::Text(data@));
        },
    }
}

/// Whether `json` is the list of these inputs: as many items, and each the input in its place.
pub open spec fn are_inputs(json: Json, inputs: Seq<CreateRawTransactionInput>) -> bool {
    json matches Json::Array(items) && items@.len() == inputs.len() && forall|i: int|
        0 <= i < inputs.len() ==> is_input(#[trigger] items@[i], inputs[i])
}

/// Whether `json` is the list of these outputs: as many items, and each the output in its place.
pub open spec fn are_outputs(json: Json, outputs: Seq<CreateRawTransactionOutput>) -> bool {
    json matches Json::Array(items) && items@.len() == outputs.len() && forall|i: int|
        0 <= i < outputs.len() ==> is_output(#[trigger] items@[i], outputs[i])
}

/// A list of outputs, through its view.
proof fn lemma_outputs(json: Json, outputs: Seq<CreateRawTransactionOutput>)
    requires
        json@ == crate::types::outputs_json(outputs),
    ensures
        are_outputs(json, outputs),
{
    let seen = crate::types::outputs_json(outputs)->Array_0;
    lemma_array(json, seen);
    let items = json->Array_0;
    assert(items@.len() == outputs.len());
    assert forall|i: int| 0 <= i < outputs.len() implies is_output(#[trigger] items@[i], outputs[i]) by {
        assert(items@[i]@ == seen[i]);
        lemma_output(items@[i], outputs[i]);
    }
}

/// The arguments of `createrawtransaction` are written with all their inputs and all their outputs,
/// each in its place, however many there are.
pub proof fn transactions_are_written_in_full(arguments: CreateRawTransactionArguments, r: Json)
    requires
        call_ensures(CreateRawTransactionArguments::to_json, (&arguments,), r),
    ensures
        r matches Json::Object(members) && members@.len() == 2 && members@[0].0@ == "inputs"@
            && are_inputs(members@[0].1, arguments.inputs@) && members@[1].0@ == "outputs"@
            && are_outputs(members@[1].1, arguments.outputs@),
{
    let seen = arguments.json()->Object_0;
    lemma_object(r, seen);
    let members = r->Object_0;
    assert(members@[0].1@ == seen[0].1);
    assert(members@[1].1@ == seen[1].1);
    lemma_outputs(members@[1].1, arguments.outputs@);
    let inputs = crate::types::inputs_json(arguments.inputs@)->Array_0;
    lemma_array(members@[0].1, inputs);
    let items = members@[0].1->Array_0;
    assert(items@.len() == arguments.inputs@.len());
    assert forall|i: int| 0 <= i < arguments.inputs@.len() implies is_input(
        #[trigger] items@[i],
        arguments.inputs@[i],
    ) by {
        assert(items@[i]@ == inputs[i]);
        lemma_input(items@[i], arguments.inputs@[i]);
    }
}

/// Whether two outputs are the same: the same payload, or the same address with the same amount.
pub open spec fn same_output(a: CreateRawTransactionOutput, b: CreateRawTransactionOutput) -> bool {
    match (a, b) {
        (
            CreateRawTransactionOutput::AddressAmount { address: a1, amount: n1 },
            CreateRawTransactionOutput::AddressAmount { address: a2, amount: n2 },
        ) => a1@ == a2@ && n1 == n2,
        (
            CreateRawTransactionOutput::Data { data: d1 },
            CreateRawTransactionOutput::Data { data: d2 },
        ) => d1@ == d2@,
        _ => false,
    }
}

/// Lists of outputs that differ are written differently: what is written is a list of one length,
/// and of one output at each place.
pub proof fn outputs_are_told_apart(
    json: Json,
    a: Seq<CreateRawTransactionOutput>,
    b: Seq<CreateRawTransactionOutput>,
)
    requires
        are_outputs(json, a),
        are_outputs(json, b),
    ensures
        a.len() == b.len(),
        forall|i: int| 0 <= i < a.len() ==> same_output(#[trigger] a[i], b[i]),
{
    let items = json->Array_0;
    assert forall|i: int| 0 <= i < a.len() implies same_output(#[trigger] a[i], b[i]) by {
        assert(is_output(items@[i], a[i]));
        assert(is_output(items@[i], b[i]));
    }
}

/// A previous output is written with all its fields; those that are missing are `null`. Its
/// transaction id is the text that reads as its hash.
pub proof fn previous_outputs_are_written(output: PreviousTransactionOutput, r: Json)
    requires
        call_ensures(PreviousTransactionOutput::to_json, (&output,), r),
    ensures
        r matches Json::Object(members) && members@.len() == 6 && members@[0].0@ == "txid"@ && (
        members@[0].1 matches Json::String(id) && writes_hash(id@, output.txid.hash@))
            && member_says(members@, 1, "vout"@, Said::Count(output.vout as nat)) && member_says(
            members@,
            2,
            "scriptPubKey"@,
            Said::Text(output.script_pubkey@),
        ) && member_says(members@, 3, "redeemScript"@, text(output.redeem_script)) && member_says(
            members@,
            4,
            "witnessScript"@,
            text(output.witness_script),
        ) && member_says(
            members@,
            5,
            "amount"@,
            match output.amount {
                Some(amount) => Said::Given(amount),
                None => Said::Nothing,
            },
        ),
{
    let seen = output.json()->Object_0;
    let id = txid_text(output.txid.hash@);
    lemma_hash(output.txid);
    lemma_member(r, seen, 0, "txid"@, Said::Text(id));
    lemma_member(r, seen, 1, "vout"@, Said::Count(output.vout as nat));
    lemma_member(r, seen, 2, "scriptPubKey"@, Said::Text(output.script_pubkey@));
    lemma_member(r, seen, 3, "redeemScript"@, text(output.redeem_script));
    lemma_member(r, seen, 4, "witnessScript"@, text(output.witness_script));
    lemma_member(
        r,
        seen,
        5,
        "amount"@,
        match output.amount {
            Some(amount) => Said::Given(amount),
            None => Said::Nothing,
        },
    );
}

/// Whether the two digits that end `2 * i` places before the end of `text` write byte `i`, in lower
/// case.
pub open spec fn byte_stands(text: Seq<char>, hash: Seq<u8>, i: int) -> bool {
    let high = text[62 - 2 * i];
    let low = text[63 - 2 * i];
    &&& is_hex_digit(high) && !('A' <= high <= 'F')
    &&& is_hex_digit(low) && !('A' <= low <= 'F')
    &&& hash[i] == 16 * hex_value(high) + hex_value(low)
}

/// Whether `text` writes `hash`, from its last byte to its first.
pub open spec fn writes_hash(text: Seq<char>, hash: Seq<u8>) -> bool {
    &&& text.len() == 64
    &&& hash.len() == 32
    &&& forall|i: int| 0 <= i < 32 ==> #[trigger] byte_stands(text, hash, i)
}

/// A digit is in lower case and has the value that it was made for.
proof fn lemma_digit(d: nat)
    requires
        d < 16,
    ensures
        is_hex_digit(hex_char(d)),
        !('A' <= hex_char(d) <= 'F'),
        hex_value(hex_char(d)) == d,
{
}

/// Each byte of a hash is written in its two digits.
proof fn lemma_hash_byte(hash: Seq<u8>, i: int)
    requires
        0 <= i < 32,
        hash.len() == 32,
    ensures
        txid_text(hash)[62 - 2 * i] == hex_char(hash[i] as nat / 16),
        txid_text(hash)[63 - 2 * i] == hex_char(hash[i] as nat % 16),
{
    assert((62 - 2 * i) % 2 == 0 && (62 - 2 * i) / 2 == 31 - i);
    assert((63 - 2 * i) % 2 == 1 && (63 - 2 * i) / 2 == 31 - i);
}

/// The text of a transaction id writes its hash.
#[verifier::spinoff_prover]
proof fn lemma_hash(txid: Txid)
    ensures
        writes_hash(txid_text(txid.hash@), txid.hash@),
{
    let hash = txid.hash@;
    let text = txid_text(hash);
    assert(hash.len() == 32);
    assert forall|i: int| 0 <= i < 32 implies #[trigger] byte_stands(text, hash, i) by {
        let b = hash[i] as nat;
        lemma_hash_byte(hash, i);
        lemma_digit(b / 16);
        lemma_digit(b % 16);
        assert(b == 16 * (b / 16) + b % 16);
    }
}

/// A transaction id is written as its hash, in lower case and from the last byte to the first.
pub proof fn txids_are_written(txid: Txid, r: String)
    requires
        call_ensures(Txid::to_text, (&txid,), r),
    ensures
        writes_hash(r@, txid.hash@),
{
    lemma_hash(txid);
}

/// Whether `text` reads as `hash`, in either case.
pub open spec fn reads_as_hash(text: Seq<char>, hash: Seq<u8>) -> bool {
    &&& text.len() == 64
    &&& hash.len() == 32
    &&& forall|i: int|
        0 <= i < 32 ==> #[trigger] hash[i] == 16 * hex_value(text[62 - 2 * i]) + hex_value(
            text[63 - 2 * i],
        )
}

/// The bytes of sixty-four digits.
proof fn lemma_reads_as_hash(text: Seq<char>)
    requires
        text.len() == 64,
        forall|i: int| 0 <= i < 64 ==> is_hex_digit(#[trigger] text[i]),
    ensures
        reads_as_hash(text, crate::txid::txid_hash(text)),
{
    let hash = crate::txid::txid_hash(text);
    assert forall|i: int| 0 <= i < 32 implies #[trigger] hash[i] == 16 * hex_value(
        text[62 - 2 * i],
    ) + hex_value(text[63 - 2 * i]) by {
        assert(is_hex_digit(text[62 - 2 * i]));
        assert(is_hex_digit(text[63 - 2 * i]));
    }
}

/// Sixty-four hexadecimal digits are a transaction id, in either case, and nothing else is.
pub proof fn txids_are_read(given: &str, r: Option<Txid>)
    requires
        call_ensures(Txid::parse, (given,), r),
    ensures
        r is Some <==> given@.len() == 64 && forall|i: int|
            0 <= i < 64 ==> is_hex_digit(#[trigger] given@[i]),
        r matches Some(txid) ==> reads_as_hash(given@, txid.hash@),
{
    if r is Some {
        lemma_reads_as_hash(given@);
    }
}

/// A text that is a transaction id is read as that transaction id.
pub proof fn txids_are_deserialized(given: &str, r: Txid)
    requires
        call_ensures(deserialize_txid, (given,), r),
        given@.len() == 64,
        forall|i: int| 0 <= i < 64 ==> is_hex_digit(#[trigger] given@[i]),
    ensures
        reads_as_hash(given@, r.hash@),
{
    lemma_reads_as_hash(given@);
}

/// A descriptor is written with all its fields; `active` is `null` where it is missing.
pub proof fn descriptors_are_written(descriptor: ImportDescriptorInput, r: Json)
    requires
        call_ensures(ImportDescriptorInput::to_json, (&descriptor,), r),
    ensures
        r matches Json::Object(members) && members@.len() == 3 && member_says(
            members@,
            0,
            "desc"@,
            Said::Text(descriptor.desc@),
        ) && member_says(members@, 1, "active"@, truth(descriptor.active)) && member_says(
            members@,
            2,
            "timestamp"@,
            Said::Text(descriptor.timestamp@),
        ),
{
    let seen = descriptor.json()->Object_0;
    lemma_member(r, seen, 0, "desc"@, Said::Text(descriptor.desc@));
    lemma_member(r, seen, 1, "active"@, truth(descriptor.active));
    lemma_member(r, seen, 2, "timestamp"@, Said::Text(descriptor.timestamp@));
}

/// The arguments for a wallet are written with its name, and with `null` where it is not said
/// whether to load it on startup.
pub proof fn wallets_are_written(wallet: CreateWalletArguments, r: Json)
    requires
        call_ensures(CreateWalletArguments::to_json, (&wallet,), r),
    ensures
        r matches Json::Object(members) && members@.len() == 2 && member_says(
            members@,
            0,
            "name"@,
            Said::Text(wallet.name@),
        ) && member_says(members@, 1, "load_on_startup"@, truth(wallet.load_on_startup)),
{
    let seen = wallet.json()->Object_0;
    lemma_member(r, seen, 0, "name"@, Said::Text(wallet.name@));
    lemma_member(r, seen, 1, "load_on_startup"@, truth(wallet.load_on_startup));
}

/// A limit on the fee rate is written in BTC/kvB: a kvB is four kwu, and a BTC is a hundred million
/// satoshi.
pub proof fn fee_limits_are_in_btc_per_kvb(rate: FeeRate, r: Ratio)
    requires
        call_ensures(max_fee_rate_btc_per_kvb, (rate,), r),
    ensures
        r.numerator == rate.sat_per_kwu,
        r.denominator * 4 == 100_000_000,
{
}

/// The options for broadcasting are written by position: first the fee rate, then the amount in
/// BTC. A missing one is `null` before another and left out at the end.
pub proof fn broadcast_options_are_written(options: BroadcastOptions, r: Vec<Json>)
    requires
        call_ensures(BroadcastOptions::to_params, (&options,), r),
    ensures
        options.max_burn_amount is Some ==> r@.len() == 2,
        options.max_burn_amount is None && options.max_fee_rate is Some ==> r@.len() == 1,
        options.max_burn_amount is None && options.max_fee_rate is None ==> r@.len() == 0,
        options.max_fee_rate matches Some(rate) ==> says(
            r@[0],
            Said::Quotient(rate.sat_per_kwu as nat, 25_000_000),
        ),
        options.max_fee_rate is None && r@.len() > 0 ==> says(r@[0], Said::Nothing),
        options.max_burn_amount matches Some(amount) ==> says(
            r@[1],
            Said::Satoshi(amount.sat as nat),
        ),
{
    let seen = crate::json::items_view(r@);
    assert(seen.len() == r@.len());
    assert forall|i: int| 0 <= i < r@.len() implies (#[trigger] r@[i])@ == seen[i] by {}
    if r@.len() > 0 {
        assert(r@[0]@ == seen[0]);
        match options.max_fee_rate {
            Some(rate) => lemma_says(r@[0], Said::Quotient(rate.sat_per_kwu as nat, 25_000_000)),
            None => lemma_says(r@[0], Said::Nothing),
        }
    }
    if let Some(amount) = options.max_burn_amount {
        assert(r@[1]@ == seen[1]);
        lemma_says(r@[1], Said::Satoshi(amount.sat as nat));
    }
}

/// An amount is written in BTC as its satoshi, and a missing one as `null`.
pub proof fn amounts_are_written(amount: Option<Amount>, r: Json)
    requires
        call_ensures(serialize_option_bitcoin, (&amount,), r),
    ensures
        says(r, satoshi(amount)),
{
    lemma_says(r, satoshi(amount));
}

/// A fee rate is written in sat/vB, and a missing one as `null`.
pub proof fn fee_rates_are_written(rate: Option<FeeRate>, r: Json)
    requires
        call_ensures(serialize_option_fee_rate, (&rate,), r),
    ensures
        says(r, per_vb(rate)),
{
    lemma_says(r, per_vb(rate));
}

/// A signature hash type is written as the name that Bitcoin Core has for it.
pub proof fn sighash_types_are_written(sighash: SighashType, r: Json)
    requires
        call_ensures(SighashType::to_json, (&sighash,), r),
    ensures
        sighash is Default ==> says(r, Said::Text("DEFAULT"@)),
        sighash is All ==> says(r, Said::Text("ALL"@)),
        sighash is NoOutputs ==> says(r, Said::Text("NONE"@)),
        sighash is Single ==> says(r, Said::Text("SINGLE"@)),
        sighash is AllPlusAnyoneCanPay ==> says(r, Said::Text("ALL|ANYONECANPAY"@)),
        sighash is NonePlusAnyoneCanPay ==> says(r, Said::Text("NONE|ANYONECANPAY"@)),
        sighash is SinglePlusAnyoneCanPay ==> says(r, Said::Text("SINGLE|ANYONECANPAY"@)),
{
    lemma_says(r, Said::Text(sighash.name()));
}

/// The options for listing unspent outputs are written with all their fields; those that are missing
/// are `null`.
pub proof fn query_options_are_written(options: ListUnspentQueryOptions, r: Json)
    requires
        call_ensures(ListUnspentQueryOptions::to_json, (&options,), r),
    ensures
        r matches Json::Object(members) && members@.len() == 3 && member_says(
            members@,
            0,
            "minimumAmount"@,
            satoshi(options.minimum_amount),
        ) && member_says(members@, 1, "maximumAmount"@, satoshi(options.maximum_amount))
            && member_says(
            members@,
            2,
            "maximumCount"@,
            match options.maximum_count {
                Some(n) => Said::Count(n as nat),
                None => Said::Nothing,
            },
        ),
{
    let seen = options.json()->Object_0;
    lemma_member(r, seen, 0, "minimumAmount"@, satoshi(options.minimum_amount));
    lemma_member(r, seen, 1, "maximumAmount"@, satoshi(options.maximum_amount));
    lemma_member(
        r,
        seen,
        2,
        "maximumCount"@,
        match options.maximum_count {
            Some(n) => Said::Count(n as nat),
            None => Said::Nothing,
        },
    );
}

/// One where there is a value, and zero where there is none.
pub open spec fn counted<A>(value: Option<A>) -> int {
    if value is Some {
        1
    } else {
        0
    }
}

/// The options for funding a PSBT are written with those that are given, each under its name, and
/// with nothing else.
pub proof fn funding_options_are_written(options: WalletCreateFundedPsbtOptions, r: Json)
    requires
        call_ensures(WalletCreateFundedPsbtOptions::to_json, (&options,), r),
    ensures
        r matches Json::Object(members) && {
            &&& members@.len() == counted(options.fee_rate) + counted(options.lock_unspents)
                + counted(options.conf_target) + counted(options.replaceable)
            &&& options.fee_rate is Some ==> some_member_says(
                members@,
                "fee_rate"@,
                per_vb(options.fee_rate),
            )
            &&& options.lock_unspents is Some ==> some_member_says(
                members@,
                "lockUnspents"@,
                truth(options.lock_unspents),
            )
            &&& options.conf_target matches Some(n) ==> some_member_says(
                members@,
                "conf_target"@,
                Said::Count(n as nat),
            )
            &&& options.replaceable is Some ==> some_member_says(
                members@,
                "replaceable"@,
                truth(options.replaceable),
            )
        },
{
    let seen = options.json()->Object_0;
    lemma_object(r, seen);
    let b: int = counted(options.fee_rate);
    let c: int = b + counted(options.lock_unspents);
    let d: int = c + counted(options.conf_target);
    if options.fee_rate is Some {
        lemma_member(r, seen, 0, "fee_rate"@, per_vb(options.fee_rate));
    }
    if options.lock_unspents is Some {
        lemma_member(r, seen, b, "lockUnspents"@, truth(options.lock_unspents));
    }
    if let Some(n) = options.conf_target {
        lemma_member(r, seen, c, "conf_target"@, Said::Count(n as nat));
    }
    if options.replaceable is Some {
        lemma_member(r, seen, d, "replaceable"@, truth(options.replaceable));
    }
}

/// The options for bumping a fee are written with those that are given, each under its name, and
/// with nothing else. Outputs are written in full.
pub proof fn bumping_options_are_written(options: PsbtBumpFeeOptions, r: Json)
    requires
        call_ensures(PsbtBumpFeeOptions::to_json, (&options,), r),
    ensures
        r matches Json::Object(members) && {
            &&& members@.len() == counted(options.conf_target) + counted(options.fee_rate)
                + counted(options.replaceable) + counted(options.estimate_mode) + counted(
                options.outputs,
            ) + counted(options.original_change_index)
            &&& options.conf_target matches Some(n) ==> some_member_says(
                members@,
                "conf_target"@,
                Said::Count(n as nat),
            )
            &&& options.fee_rate is Some ==> some_member_says(
                members@,
                "fee_rate"@,
                per_vb(options.fee_rate),
            )
            &&& options.replaceable is Some ==> some_member_says(
                members@,
                "replaceable"@,
                truth(options.replaceable),
            )
            &&& options.estimate_mode is Some ==> some_member_says(
                members@,
                "estimate_mode"@,
                text(options.estimate_mode),
            )
            &&& options.outputs matches Some(outputs) ==> exists|i: int|
                0 <= i < members@.len() && (#[trigger] members@[i]).0@ == "outputs"@ && are_outputs(
                    members@[i].1,
                    outputs@,
                )
            &&& options.original_change_index matches Some(n) ==> some_member_says(
                members@,
                "original_change_index"@,
                Said::Count(n as nat),
            )
        },
{
    let seen = options.json()->Object_0;
    lemma_object(r, seen);
    let members = r->Object_0;
    let b: int = counted(options.conf_target);
    let c: int = b + counted(options.fee_rate);
    let d: int = c + counted(options.replaceable);
    let e: int = d + counted(options.estimate_mode);
    let f: int = e + counted(options.outputs);
    if let Some(n) = options.conf_target {
        lemma_member(r, seen, 0, "conf_target"@, Said::Count(n as nat));
    }
    if options.fee_rate is Some {
        lemma_member(r, seen, b, "fee_rate"@, per_vb(options.fee_rate));
    }
    if options.replaceable is Some {
        lemma_member(r, seen, c, "replaceable"@, truth(options.replaceable));
    }
    if options.estimate_mode is Some {
        lemma_member(r, seen, d, "estimate_mode"@, text(options.estimate_mode));
    }
    if let Some(outputs) = options.outputs {
        assert(seen[e] == ("outputs"@, crate::types::outputs_json(outputs@)));
        assert(members@[e].1@ == seen[e].1);
        lemma_outputs(members@[e].1, outputs@);
    }
    if let Some(n) = options.original_change_index {
        lemma_member(r, seen, f, "original_change_index"@, Said::Count(n as nat));
    }
}

/// Options that are not given are left to Bitcoin Core.
pub proof fn options_are_missing_by_default(
    broadcast: BroadcastOptions,
    funding: WalletCreateFundedPsbtOptions,
    bumping: PsbtBumpFeeOptions,
)
    requires
        call_ensures(<BroadcastOptions as Default>::default, (), broadcast),
        call_ensures(<WalletCreateFundedPsbtOptions as Default>::default, (), funding),
        call_ensures(<PsbtBumpFeeOptions as Default>::default, (), bumping),
    ensures
        broadcast.max_fee_rate is None && broadcast.max_burn_amount is None,
        funding.fee_rate is None && funding.lock_unspents is None && funding.conf_target is None
            && funding.replaceable is None,
        bumping.conf_target is None && bumping.fee_rate is None && bumping.replaceable is None
            && bumping.estimate_mode is None && bumping.outputs is None
            && bumping.original_change_index is None,
{
}

} // verus!
