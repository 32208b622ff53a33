//! Batch proofs: their data, the record kept of each, and its life from generation to
//! verification.
use crate::json::{Json, JsonView};
use std::time::SystemTime;
use vstd::prelude::*;

verus! {

/// `std::time::SystemTime`, carried without looking inside.
#[verifier::external_type_specification]
#[verifier::external_body]
pub struct ExSystemTime(SystemTime);

/// `SystemTime::now`. Nothing is known of the time that it gives.
#[verifier::external_body]
pub(crate) fn current_time() -> SystemTime {
    SystemTime::now()
}

/// How often a failed proof may be taken up again.
pub const MAX_RETRIES: u32 = 3;

/// A Groth16 proof as its prover writes it: three curve points and the names of the protocol and
/// the curve.
#[derive(Debug, PartialEq, Eq)]
pub struct ProofData {
    pub pi_a: [String; 3],
    pub pi_b: [[String; 2]; 3],
    pub pi_c: [String; 3],
    pub protocol: String,
    pub curve: String,
}

/// What a [`ProofData`] holds.
pub struct ProofDataView {
    pub pi_a: Seq<Seq<char>>,
    pub pi_b: Seq<Seq<Seq<char>>>,
    pub pi_c: Seq<Seq<char>>,
    pub protocol: Seq<char>,
    pub curve: Seq<char>,
}

impl View for ProofData {
    type V = ProofDataView;

    open spec fn view(&self) -> ProofDataView {
        ProofDataView {
            pi_a: self.pi_a.deep_view(),
            pi_b: self.pi_b.deep_view(),
            pi_c: self.pi_c.deep_view(),
            protocol: self.protocol@,
            curve: self.curve@,
        }
    }
}

impl Clone for ProofData {
    fn clone(&self) -> (copy: Self)
        ensures
            copy@ == self@,
    {
        let copy = ProofData {
            pi_a: self.pi_a.clone(),
            pi_b: [self.pi_b[0].clone(), self.pi_b[1].clone(), self.pi_b[2].clone()],
            pi_c: self.pi_c.clone(),
            protocol: self.protocol.clone(),
            curve: self.curve.clone(),
        };
        proof {
            assert(copy@.pi_a =~= self@.pi_a);
            assert forall|i: int| 0 <= i < 3 implies #[trigger] copy@.pi_b[i] == self@.pi_b[i] by {
                assert(copy.pi_b@[i].deep_view() =~= self.pi_b@[i].deep_view());
            }
            assert(copy@.pi_b =~= self@.pi_b);
            assert(copy@.pi_c =~= self@.pi_c);
        }
        copy
    }
}

/// The text of the field `name`.
pub open spec fn field_text(json: JsonView, name: Seq<char>) -> Option<Seq<char>> {
    match json.field(name) {
        Some(value) => value.text(),
        None => None,
    }
}

/// The text at position `i` of the array in the field `name`.
pub open spec fn item_text(json: JsonView, name: Seq<char>, i: int) -> Option<Seq<char>> {
    match json.field(name) {
        Some(items) => match items.at(i) {
            Some(value) => value.text(),
            None => None,
        },
        None => None,
    }
}

/// The text at position `j` of the array at position `i` of the array in the field `name`.
pub open spec fn nested_text(json: JsonView, name: Seq<char>, i: int, j: int) -> Option<Seq<char>> {
    match json.field(name) {
        Some(rows) => match rows.at(i) {
            Some(items) => match items.at(j) {
                Some(value) => value.text(),
                None => None,
            },
            None => None,
        },
        None => None,
    }
}

/// Whether every text of a proof stands in its place in `json`.
pub open spec fn holds_proof(json: JsonView) -> bool {
    &&& forall|i: int| 0 <= i < 3 ==> (#[trigger] item_text(json, "pi_a"@, i)) is Some
    &&& forall|i: int, j: int|
        0 <= i < 3 && 0 <= j < 2 ==> (#[trigger] nested_text(json, "pi_b"@, i, j)) is Some
    &&& forall|i: int| 0 <= i < 3 ==> (#[trigger] item_text(json, "pi_c"@, i)) is Some
    &&& field_text(json, "protocol"@) is Some
    &&& field_text(json, "curve"@) is Some
}

/// The proof whose texts stand in `json`.
pub open spec fn proof_in(json: JsonView) -> ProofDataView {
    ProofDataView {
        pi_a: Seq::new(3, |i: int| item_text(json, "pi_a"@, i)->0),
        pi_b: Seq::new(3, |i: int| Seq::new(2, |j: int| nested_text(json, "pi_b"@, i, j)->0)),
        pi_c: Seq::new(3, |i: int| item_text(json, "pi_c"@, i)->0),
        protocol: field_text(json, "protocol"@)->0,
        curve: field_text(json, "curve"@)->0,
    }
}

fn get_field_text<'a>(json: &'a Json, name: &str) -> (text: Option<&'a String>)
    ensures
        text.deep_view() == field_text(json@, name@),
{
    match json.field(name) {
        Some(value) => value.as_str(),
        None => None,
    }
}

fn get_item_text<'a>(json: &'a Json, name: &str, i: usize) -> (text: Option<&'a String>)
    ensures
        text.deep_view() == item_text(json@, name@, i as int),
{
    match json.field(name) {
        Some(items) => match items.at(i) {
            Some(value) => value.as_str(),
            None => None,
        },
        None => None,
    }
}

fn get_nested_text<'a>(json: &'a Json, name: &str, i: usize, j: usize) -> (text: Option<&'a String>)
    ensures
        text.deep_view() == nested_text(json@, name@, i as int, j as int),
{
    match json.field(name) {
        Some(rows) => match rows.at(i) {
            Some(items) => match items.at(j) {
                Some(value) => value.as_str(),
                None => None,
            },
            None => None,
        },
        None => None,
    }
}

/// Why a text holds no proof.
#[derive(Debug, PartialEq, Eq)]
pub enum ProofDataError {
    /// The text is no JSON, for this reason.
    Syntax(String),
    /// The text is JSON, but a text of the proof is missing from it.
    Incomplete,
}

impl ProofData {
    /// Whether every text of a proof stands in its place in `json`.
    pub fn is_held_by(json: &Json) -> (held: bool)
        ensures
            held == holds_proof(json@),
    {
        let mut i: usize = 0;
        while i < 3
            invariant
                i <= 3,
                forall|k: int| 0 <= k < i ==> (#[trigger] item_text(json@, "pi_a"@, k)) is Some,
                forall|k: int, j: int|
                    0 <= k < i && 0 <= j < 2 ==> (#[trigger] nested_text(
                        json@,
                        "pi_b"@,
                        k,
                        j,
                    )) is Some,
                forall|k: int| 0 <= k < i ==> (#[trigger] item_text(json@, "pi_c"@, k)) is Some,
            decreases 3 - i,
        {
            if get_item_text(json, "pi_a", i).is_none() || get_nested_text(
                json,
                "pi_b",
                i,
                0,
            ).is_none() || get_nested_text(json, "pi_b", i, 1).is_none() || get_item_text(
                json,
                "pi_c",
                i,
            ).is_none() {
                assert(item_text(json@, "pi_a"@, i as int) is None || nested_text(
                    json@,
                    "pi_b"@,
                    i as int,
                    0,
                ) is None || nested_text(json@, "pi_b"@, i as int, 1) is None || item_text(
                    json@,
                    "pi_c"@,
                    i as int,
                ) is None);
                return false;
            }
            i = i + 1;
        }
        get_field_text(json, "protocol").is_some() && get_field_text(json, "curve").is_some()
    }

    fn item(json: &Json, name: &str, i: usize) -> (text: String)
        requires
            item_text(json@, name@, i as int) is Some,
        ensures
            text@ == item_text(json@, name@, i as int)->0,
    {
        get_item_text(json, name, i).unwrap().clone()
    }

    fn nested(json: &Json, name: &str, i: usize) -> (texts: [String; 2])
        requires
            nested_text(json@, name@, i as int, 0) is Some,
            nested_text(json@, name@, i as int, 1) is Some,
        ensures
            texts.deep_view() == Seq::new(2, |j: int| nested_text(json@, name@, i as int, j)->0),
    {
        let first = get_nested_text(json, name, i, 0).unwrap().clone();
        let second = get_nested_text(json, name, i, 1).unwrap().clone();
        let texts = [first, second];
        assert(texts.deep_view() =~= Seq::new(
            2,
            |j: int| nested_text(json@, name@, i as int, j)->0,
        ));
        texts
    }

    /// Takes the proof out of a JSON value that holds one.
    pub fn from_json_value(json: &Json) -> (proof: ProofData)
        requires
            holds_proof(json@),
        ensures
            proof@ == proof_in(json@),
    {
        assert(item_text(json@, "pi_a"@, 0) is Some);
        assert(nested_text(json@, "pi_b"@, 0, 0) is Some);
        let proof = ProofData {
            pi_a: [
                Self::item(json, "pi_a", 0),
                Self::item(json, "pi_a", 1),
                Self::item(json, "pi_a", 2),
            ],
            pi_b: [
                Self::nested(json, "pi_b", 0),
                Self::nested(json, "pi_b", 1),
                Self::nested(json, "pi_b", 2),
            ],
            pi_c: [
                Self::item(json, "pi_c", 0),
                Self::item(json, "pi_c", 1),
                Self::item(json, "pi_c", 2),
            ],
            protocol: get_field_text(json, "protocol").unwrap().clone(),
            curve: get_field_text(json, "curve").unwrap().clone(),
        };
        proof {
            let wanted = proof_in(json@);
            assert(proof@.pi_a =~= wanted.pi_a);
            assert(proof@.pi_b =~= wanted.pi_b);
            assert(proof@.pi_c =~= wanted.pi_c);
        }
        proof
    }

    /// Reads a proof from a JSON text.
    pub fn from_json(text: &str) -> (read: Result<ProofData, ProofDataError>)
        ensures
            match (crate::json::json_of_text(text@), read) {
                (Ok(json), Ok(proof)) => holds_proof(json) && proof@ == proof_in(json),
                (Ok(json), Err(error)) => !holds_proof(json) && error is Incomplete,
                (Err(_), Ok(_)) => false,
                (Err(detail), Err(error)) => error is Syntax && error->Syntax_0@ == detail,
            },
    {
        match Json::parse(text) {
            Ok(json) => if Self::is_held_by(&json) {
                Ok(Self::from_json_value(&json))
            } else {
                Err(ProofDataError::Incomplete)
            },
            Err(detail) => Err(ProofDataError::Syntax(detail)),
        }
    }
}

/// How far a batch proof has come.
#[derive(Debug, Clone, Copy, PartialEq, Eq, Structural)]
pub enum ProofStatus {
    Generated,
    Posted,
    Verified,
    Failed,
}

/// A request to keep a new batch proof.
#[derive(Debug, PartialEq, Eq)]
pub struct StoreBatchProofMessage {
    pub batch_id: String,
    pub proof_data: ProofData,
    pub public_inputs: Vec<String>,
    pub transaction_signatures: Vec<String>,
}

/// What a [`StoreBatchProofMessage`] holds.
pub struct StoreBatchProofMessageView {
    pub batch_id: Seq<char>,
    pub proof_data: ProofDataView,
    pub public_inputs: Seq<Seq<char>>,
    pub transaction_signatures: Seq<Seq<char>>,
}

impl View for StoreBatchProofMessage {
    type V = StoreBatchProofMessageView;

    open spec fn view(&self) -> StoreBatchProofMessageView {
        StoreBatchProofMessageView {
            batch_id: self.batch_id@,
            proof_data: self.proof_data@,
            public_inputs: self.public_inputs.deep_view(),
            transaction_signatures: self.transaction_signatures.deep_view(),
        }
    }
}

impl Clone for StoreBatchProofMessage {
    fn clone(&self) -> (copy: Self)
        ensures
            copy@ == self@,
    {
        let copy = StoreBatchProofMessage {
            batch_id: self.batch_id.clone(),
            proof_data: self.proof_data.clone(),
            public_inputs: self.public_inputs.clone(),
            transaction_signatures: self.transaction_signatures.clone(),
        };
        assert(copy@.public_inputs =~= self@.public_inputs);
        assert(copy@.transaction_signatures =~= self@.transaction_signatures);
        copy
    }
}

impl DeepView for StoreBatchProofMessage {
    type V = StoreBatchProofMessageView;

    open spec fn deep_view(&self) -> StoreBatchProofMessageView {
        self@
    }
}

/// A report on how far a batch proof has come.
#[derive(Debug, PartialEq, Eq)]
pub struct UpdateProofStatusMessage {
    pub batch_id: String,
    pub new_status: ProofStatus,
    pub error_message: Option<String>,
}

/// What an [`UpdateProofStatusMessage`] holds.
pub struct UpdateProofStatusMessageView {
    pub batch_id: Seq<char>,
    pub new_status: ProofStatus,
    pub error_message: Option<Seq<char>>,
}

impl View for UpdateProofStatusMessage {
    type V = UpdateProofStatusMessageView;

    open spec fn view(&self) -> UpdateProofStatusMessageView {
        UpdateProofStatusMessageView {
            batch_id: self.batch_id@,
            new_status: self.new_status,
            error_message: self.error_message.deep_view(),
        }
    }
}

impl Clone for UpdateProofStatusMessage {
    fn clone(&self) -> (copy: Self)
        ensures
            copy@ == self@,
    {
        UpdateProofStatusMessage {
            batch_id: self.batch_id.clone(),
            new_status: self.new_status,
            error_message: self.error_message.clone(),
        }
    }
}

impl DeepView for UpdateProofStatusMessage {
    type V = UpdateProofStatusMessageView;

    open spec fn deep_view(&self) -> UpdateProofStatusMessageView {
        self@
    }
}

/// The record kept of a batch proof.
#[derive(Debug, PartialEq, Eq)]
pub struct BatchProofRecord {
    pub batch_id: String,
    pub proof_data: ProofData,
    pub public_inputs: Vec<String>,
    pub transaction_signatures: Vec<String>,
    pub status: ProofStatus,
    pub created_at: SystemTime,
    pub updated_at: SystemTime,
    pub retry_count: u32,
    pub error_message: Option<String>,
}

/// What a [`BatchProofRecord`] holds.
pub struct BatchProofRecordView {
    pub batch_id: Seq<char>,
    pub proof_data: ProofDataView,
    pub public_inputs: Seq<Seq<char>>,
    pub transaction_signatures: Seq<Seq<char>>,
    pub status: ProofStatus,
    pub created_at: SystemTime,
    pub updated_at: SystemTime,
    pub retry_count: u32,
    pub error_message: Option<Seq<char>>,
}

impl View for BatchProofRecord {
    type V = BatchProofRecordView;

    open spec fn view(&self) -> BatchProofRecordView {
        BatchProofRecordView {
            batch_id: self.batch_id@,
            proof_data: self.proof_data@,
            public_inputs: self.public_inputs.deep_view(),
            transaction_signatures: self.transaction_signatures.deep_view(),
            status: self.status,
            created_at: self.created_at,
            updated_at: self.updated_at,
            retry_count: self.retry_count,
            error_message: self.error_message.deep_view(),
        }
    }
}

impl Clone for BatchProofRecord {
    fn clone(&self) -> (copy: Self)
        ensures
            copy@ == self@,
    {
        let copy = BatchProofRecord {
            batch_id: self.batch_id.clone(),
            proof_data: self.proof_data.clone(),
            public_inputs: self.public_inputs.clone(),
            transaction_signatures: self.transaction_signatures.clone(),
            status: self.status,
            created_at: self.created_at,
            updated_at: self.updated_at,
            retry_count: self.retry_count,
            error_message: self.error_message.clone(),
        };
        assert(copy@.public_inputs =~= self@.public_inputs);
        assert(copy@.transaction_signatures =~= self@.transaction_signatures);
        copy
    }
}

impl DeepView for BatchProofRecord {
    type V = BatchProofRecordView;

    open spec fn deep_view(&self) -> BatchProofRecordView {
        self@
    }
}

impl BatchProofRecordView {
    /// The record of a proof that was handed in at `now`.
    pub open spec fn generated(message: StoreBatchProofMessageView, now: SystemTime) -> Self {
        BatchProofRecordView {
            batch_id: message.batch_id,
            proof_data: message.proof_data,
            public_inputs: message.public_inputs,
            transaction_signatures: message.transaction_signatures,
            status: ProofStatus::Generated,
            created_at: now,
            updated_at: now,
            retry_count: 0,
            error_message: None,
        }
    }

    /// The record after a report at `now`. A failure is counted.
    pub open spec fn reported(
        self,
        status: ProofStatus,
        error_message: Option<Seq<char>>,
        now: SystemTime,
    ) -> Self {
        BatchProofRecordView {
            status,
            updated_at: now,
            error_message,
            retry_count: if status == ProofStatus::Failed {
                (self.retry_count + 1) as u32
            } else {
                self.retry_count
            },
            ..self
        }
    }

    /// Whether a report of `status` finds room in the count of failures.
    pub open spec fn can_report(self, status: ProofStatus) -> bool {
        status == ProofStatus::Failed ==> self.retry_count < u32::MAX
    }

    /// Whether the proof is not yet verified.
    pub open spec fn is_unsettled(self) -> bool {
        self.status != ProofStatus::Verified
    }

    /// Whether the proof has failed, and less often than [`MAX_RETRIES`] times.
    pub open spec fn is_retriable(self) -> bool {
        self.status == ProofStatus::Failed && self.retry_count < MAX_RETRIES
    }

    /// The record after the proof was taken up again at `now`.
    pub open spec fn reset(self, now: SystemTime) -> Self {
        BatchProofRecordView { status: ProofStatus::Generated, updated_at: now, ..self }
    }
}

impl BatchProofRecord {
    /// The record of a proof that is handed in at `now`.
    pub fn generated(message: StoreBatchProofMessage, now: SystemTime) -> (record: Self)
        ensures
            record@ == BatchProofRecordView::generated(message@, now),
    {
        BatchProofRecord {
            batch_id: message.batch_id,
            proof_data: message.proof_data,
            public_inputs: message.public_inputs,
            transaction_signatures: message.transaction_signatures,
            status: ProofStatus::Generated,
            created_at: now,
            updated_at: now,
            retry_count: 0,
            error_message: None,
        }
    }

    /// Whether a report of `status` finds room in the count of failures.
    pub fn can_report(&self, status: ProofStatus) -> (can: bool)
        ensures
            can == self@.can_report(status),
    {
        status != ProofStatus::Failed || self.retry_count < u32::MAX
    }

    /// Takes in a report that comes at `now`.
    pub fn report(&mut self, status: ProofStatus, error_message: Option<String>, now: SystemTime)
        requires
            old(self)@.can_report(status),
        ensures
            final(self)@ == old(self)@.reported(status, error_message.deep_view(), now),
    {
        self.status = status;
        self.updated_at = now;
        self.error_message = error_message;
        if self.status == ProofStatus::Failed {
            self.retry_count = self.retry_count + 1;
        }
    }

    /// Whether the proof is not yet verified.
    pub fn is_unsettled(&self) -> (unsettled: bool)
        ensures
            unsettled == self@.is_unsettled(),
    {
        match self.status {
            ProofStatus::Generated | ProofStatus::Posted | ProofStatus::Failed => true,
            ProofStatus::Verified => false,
        }
    }

    /// Whether the proof has failed, and less often than [`MAX_RETRIES`] times.
    pub fn is_retriable(&self) -> (retriable: bool)
        ensures
            retriable == self@.is_retriable(),
    {
        self.status == ProofStatus::Failed && self.retry_count < MAX_RETRIES
    }

    /// Takes the proof up again at `now`.
    pub fn reset(&mut self, now: SystemTime)
        ensures
            final(self)@ == old(self)@.reset(now),
    {
        self.status = ProofStatus::Generated;
        self.updated_at = now;
    }
}

/// Whether `json` is an array whose first elements are the texts.
pub open spec fn lists_texts(json: JsonView, texts: Seq<Seq<char>>) -> bool {
    &&& json is Array
    &&& texts.len() <= json->Array_0.len()
    &&& forall|i: int|
        0 <= i < texts.len() ==> #[trigger] json->Array_0[i] == JsonView::Str(texts[i])
}

/// Whether `json` is an array whose first elements list the rows of texts.
pub open spec fn lists_rows(json: JsonView, rows: Seq<Seq<Seq<char>>>) -> bool {
    &&& json is Array
    &&& rows.len() <= json->Array_0.len()
    &&& forall|i: int| 0 <= i < rows.len() ==> lists_texts(#[trigger] json->Array_0[i], rows[i])
}

/// Whether the five fields of `json` spell the proof.
pub open spec fn spells(
    json: JsonView,
    pi_a: JsonView,
    pi_b: JsonView,
    pi_c: JsonView,
    data: ProofDataView,
) -> bool {
    &&& crate::json::has_field(json, "pi_a"@, pi_a)
    &&& crate::json::has_field(json, "pi_b"@, pi_b)
    &&& crate::json::has_field(json, "pi_c"@, pi_c)
    &&& lists_texts(pi_a, data.pi_a)
    &&& lists_rows(pi_b, data.pi_b)
    &&& lists_texts(pi_c, data.pi_c)
    &&& crate::json::has_field(json, "protocol"@, JsonView::Str(data.protocol))
    &&& crate::json::has_field(json, "curve"@, JsonView::Str(data.curve))
    &&& data.pi_a.len() == 3
    &&& data.pi_b.len() == 3
    &&& forall|i: int| 0 <= i < 3 ==> (#[trigger] data.pi_b[i]).len() == 2
    &&& data.pi_c.len() == 3
}

/// A value whose fields spell a proof holds that proof.
pub proof fn law_spelled_proof_is_read(
    json: JsonView,
    pi_a: JsonView,
    pi_b: JsonView,
    pi_c: JsonView,
    data: ProofDataView,
)
    requires
        spells(json, pi_a, pi_b, pi_c, data),
    ensures
        holds_proof(json),
        proof_in(json).pi_a == data.pi_a,
        proof_in(json).pi_b == data.pi_b,
        proof_in(json).pi_c == data.pi_c,
        proof_in(json).protocol == data.protocol,
        proof_in(json).curve == data.curve,
{
    crate::json::law_json_field(json, "pi_a"@, pi_a);
    crate::json::law_json_field(json, "pi_b"@, pi_b);
    crate::json::law_json_field(json, "pi_c"@, pi_c);
    crate::json::law_json_field(json, "protocol"@, JsonView::Str(data.protocol));
    crate::json::law_json_field(json, "curve"@, JsonView::Str(data.curve));
    assert forall|i: int| 0 <= i < 3 implies (#[trigger] item_text(json, "pi_a"@, i)) == Some(
        data.pi_a[i],
    ) by {
        assert(pi_a->Array_0[i] == JsonView::Str(data.pi_a[i]));
    }
    assert forall|i: int| 0 <= i < 3 implies (#[trigger] item_text(json, "pi_c"@, i)) == Some(
        data.pi_c[i],
    ) by {
        assert(pi_c->Array_0[i] == JsonView::Str(data.pi_c[i]));
    }
    assert forall|i: int, j: int| 0 <= i < 3 && 0 <= j < 2 implies (
    #[trigger] nested_text(json, "pi_b"@, i, j)) == Some(data.pi_b[i][j]) by {
        assert(lists_texts(pi_b->Array_0[i], data.pi_b[i]));
        assert(data.pi_b[i].len() == 2);
        assert(pi_b->Array_0[i]->Array_0[j] == JsonView::Str(data.pi_b[i][j]));
    }
    assert(proof_in(json).pi_a =~= data.pi_a);
    assert forall|i: int| 0 <= i < 3 implies proof_in(json).pi_b[i] == data.pi_b[i] by {
        assert(data.pi_b[i].len() == 2);
        assert(proof_in(json).pi_b[i] =~= data.pi_b[i]);
    }
    assert(proof_in(json).pi_b =~= data.pi_b);
    assert(proof_in(json).pi_c =~= data.pi_c);
}

/// A value that holds a proof spells it in its fields.
pub proof fn law_held_proof_is_spelled(json: JsonView)
    requires
        holds_proof(json),
    ensures
        exists|pi_a: JsonView, pi_b: JsonView, pi_c: JsonView|
            spells(json, pi_a, pi_b, pi_c, proof_in(json)),
{
    let data = proof_in(json);
    assert(item_text(json, "pi_a"@, 0) is Some);
    assert(nested_text(json, "pi_b"@, 0, 0) is Some);
    assert(item_text(json, "pi_c"@, 0) is Some);
    let pi_a = json.field("pi_a"@)->0;
    let pi_b = json.field("pi_b"@)->0;
    let pi_c = json.field("pi_c"@)->0;
    crate::json::law_json_field(json, "pi_a"@, pi_a);
    crate::json::law_json_field(json, "pi_b"@, pi_b);
    crate::json::law_json_field(json, "pi_c"@, pi_c);
    crate::json::law_json_field(json, "protocol"@, JsonView::Str(data.protocol));
    crate::json::law_json_field(json, "curve"@, JsonView::Str(data.curve));
    assert(item_text(json, "pi_a"@, 2) is Some);
    assert(item_text(json, "pi_c"@, 2) is Some);
    assert(nested_text(json, "pi_b"@, 2, 0) is Some);
    assert forall|i: int| 0 <= i < 3 implies #[trigger] pi_a->Array_0[i] == JsonView::Str(
        data.pi_a[i],
    ) by {
        assert(item_text(json, "pi_a"@, i) is Some);
    }
    assert forall|i: int| 0 <= i < 3 implies #[trigger] pi_c->Array_0[i] == JsonView::Str(
        data.pi_c[i],
    ) by {
        assert(item_text(json, "pi_c"@, i) is Some);
    }
    assert forall|i: int| 0 <= i < 3 implies lists_texts(
        #[trigger] pi_b->Array_0[i],
        data.pi_b[i],
    ) by {
        let row = pi_b->Array_0[i];
        assert(nested_text(json, "pi_b"@, i, 0) is Some);
        assert(nested_text(json, "pi_b"@, i, 1) is Some);
        assert forall|j: int| 0 <= j < 2 implies #[trigger] row->Array_0[j] == JsonView::Str(
            data.pi_b[i][j],
        ) by {
            assert(nested_text(json, "pi_b"@, i, j) is Some);
        }
    }
    assert(spells(json, pi_a, pi_b, pi_c, data));
}

/// What a proof, a request to keep one, a report and a record hold is what they are made of.
pub proof fn law_proof_views(
    data: ProofData,
    store: StoreBatchProofMessage,
    update: UpdateProofStatusMessage,
    record: BatchProofRecord,
    i: int,
    j: int,
)
    ensures
        data@.pi_a.len() == 3,
        data@.pi_b.len() == 3,
        data@.pi_c.len() == 3,
        0 <= i < 3 ==> data@.pi_a[i] == data.pi_a@[i]@ && data@.pi_c[i] == data.pi_c@[i]@,
        0 <= i < 3 ==> data@.pi_b[i].len() == 2,
        0 <= i < 3 && 0 <= j < 2 ==> data@.pi_b[i][j] == data.pi_b@[i]@[j]@,
        data@.protocol == data.protocol@,
        data@.curve == data.curve@,
        store@.batch_id == store.batch_id@,
        store@.proof_data == store.proof_data@,
        store@.public_inputs.len() == store.public_inputs@.len(),
        0 <= i < store.public_inputs@.len() ==> store@.public_inputs[i] == store.public_inputs@[i]@,
        store@.transaction_signatures.len() == store.transaction_signatures@.len(),
        0 <= i < store.transaction_signatures@.len() ==> store@.transaction_signatures[i]
            == store.transaction_signatures@[i]@,
        update@.batch_id == update.batch_id@,
        update@.new_status == update.new_status,
        update.error_message is None ==> update@.error_message is None,
        update.error_message is Some ==> update@.error_message == Some(update.error_message->0@),
        record@.batch_id == record.batch_id@,
        record@.proof_data == record.proof_data@,
        record@.public_inputs.len() == record.public_inputs@.len(),
        0 <= i < record.public_inputs@.len() ==> record@.public_inputs[i]
            == record.public_inputs@[i]@,
        record@.transaction_signatures.len() == record.transaction_signatures@.len(),
        0 <= i < record.transaction_signatures@.len() ==> record@.transaction_signatures[i]
            == record.transaction_signatures@[i]@,
        record@.status == record.status,
        record@.created_at == record.created_at,
        record@.updated_at == record.updated_at,
        record@.retry_count == record.retry_count,
        record.error_message is None ==> record@.error_message is None,
        record.error_message is Some ==> record@.error_message == Some(record.error_message->0@),
{
}

} // verus!
