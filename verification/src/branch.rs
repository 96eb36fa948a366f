//! The virtual-branch record, its request shapes, and the decode protocol
//! that reconstructs a record field by field from a key-value reader.
use crate::oid::oid_text_valid;
use crate::oid::Oid;
use crate::ownership::ownership_text_valid;
use crate::ownership::Ownership;
use crate::reader::slot;
use crate::reader::EntryV;
use crate::reader::ReadError;
use crate::reader::Reader;
use crate::reader::Slot;
use crate::reader::Store;
use crate::refname::lemma_remote_name_round_trip;
use crate::refname::remote_name_spec;
use crate::refname::RemoteBranchName;
use crate::refname::RemoteBranchNameV;
use crate::text::bool_text;
use crate::text::dec_digits;
use crate::text::lemma_bool_round_trip;
use crate::text::lemma_u128_round_trip;
use crate::text::lemma_usize_round_trip;
use crate::text::parse_bool_spec;
use crate::text::parse_u128_spec;
use crate::text::parse_usize_spec;
use vstd::prelude::*;
use vstd::string::StringExecFns;

verus! {

/// A virtual branch: a branch-like unit of work tracked outside the native
/// ref storage, reconstructed from its own key namespace.
#[derive(Debug, Clone, PartialEq)]
pub struct Branch {
    pub id: String,
    pub name: String,
    pub notes: String,
    pub applied: bool,
    pub upstream: Option<RemoteBranchName>,
    pub created_timestamp_ms: u128,
    pub updated_timestamp_ms: u128,
    /// The last tree written for this branch, for delta calculation.
    pub tree: Oid,
    pub head: Oid,
    pub ownership: Ownership,
    /// The rank by which a front end sorts branches.
    pub order: usize,
}

/// The view of a decoded branch record.
#[verifier::ext_equal]
pub ghost struct BranchV {
    pub id: Seq<char>,
    pub name: Seq<char>,
    pub notes: Seq<char>,
    pub applied: bool,
    pub upstream: Option<RemoteBranchNameV>,
    pub created_timestamp_ms: u128,
    pub updated_timestamp_ms: u128,
    pub tree: Seq<char>,
    pub head: Seq<char>,
    pub ownership: Seq<char>,
    pub order: usize,
}

impl View for Branch {
    type V = BranchV;

    open spec fn view(&self) -> BranchV {
        BranchV {
            id: self.id@,
            name: self.name@,
            notes: self.notes@,
            applied: self.applied,
            upstream: match self.upstream {
                Some(u) => Some(u@),
                None => None,
            },
            created_timestamp_ms: self.created_timestamp_ms,
            updated_timestamp_ms: self.updated_timestamp_ms,
            tree: self.tree@,
            head: self.head@,
            ownership: self.ownership@,
            order: self.order,
        }
    }
}

/// A caller's intent to create a branch; absent fields are filled in with
/// generated defaults by the external mutation layer.
#[derive(Debug, Clone, PartialEq)]
pub struct BranchCreateRequest {
    pub name: Option<String>,
    pub ownership: Option<Ownership>,
    pub order: Option<usize>,
}

impl Default for BranchCreateRequest {
    /// The empty intent: every field absent.
    fn default() -> (r: Self)
        ensures
            r.name is None,
            r.ownership is None,
            r.order is None,
    {
        BranchCreateRequest { name: None, ownership: None, order: None }
    }
}

/// A partial patch of one branch; an absent field means "leave unchanged".
#[derive(Debug, Clone, PartialEq)]
pub struct BranchUpdateRequest {
    pub id: String,
    pub name: Option<String>,
    pub notes: Option<String>,
    pub ownership: Option<Ownership>,
    pub order: Option<usize>,
}

impl Default for BranchUpdateRequest {
    /// The empty patch: every optional field absent, the id empty.
    fn default() -> (r: Self)
        ensures
            r.id@ == Seq::<char>::empty(),
            r.name is None,
            r.notes is None,
            r.ownership is None,
            r.order is None,
    {
        BranchUpdateRequest {
            id: String::new(),
            name: None,
            notes: None,
            ownership: None,
            order: None,
        }
    }
}

/// Why one field of a record failed to decode.
#[derive(Debug, Clone, PartialEq)]
pub enum DecodeCause {
    /// The key was absent from storage.
    NotFound,
    /// The underlying read faulted, with its cause text.
    Io(String),
    /// The stored text failed to parse, kept for diagnostics.
    Malformed(String),
}

/// The view of a decode cause.
pub ghost enum CauseV {
    NotFound,
    Io(Seq<char>),
    Malformed(Seq<char>),
}

impl View for DecodeCause {
    type V = CauseV;

    open spec fn view(&self) -> CauseV {
        match self {
            DecodeCause::NotFound => CauseV::NotFound,
            DecodeCause::Io(c) => CauseV::Io(c@),
            DecodeCause::Malformed(s) => CauseV::Malformed(s@),
        }
    }
}

/// A failed decode: the offending key, and why that key failed.
#[derive(Debug, Clone, PartialEq)]
pub struct DecodeError {
    pub key: String,
    pub cause: DecodeCause,
}

/// The view of a decode error.
#[verifier::ext_equal]
pub ghost struct DecodeErrorV {
    pub key: Seq<char>,
    pub cause: CauseV,
}

impl View for DecodeError {
    type V = DecodeErrorV;

    open spec fn view(&self) -> DecodeErrorV {
        DecodeErrorV { key: self.key@, cause: self.cause@ }
    }
}

/// The error one field contributes: its key, and why that key failed.
pub open spec fn field_err(k: Seq<char>, c: CauseV) -> DecodeErrorV {
    DecodeErrorV { key: k, cause: c }
}

/// Required string field: absence and faults are both fatal.
pub open spec fn req_string(m: Store, k: Seq<char>) -> Result<Seq<char>, DecodeErrorV> {
    match slot(m, k) {
        Slot::Found(s) => Ok(s),
        Slot::Missing => Err(field_err(k, CauseV::NotFound)),
        Slot::Faulted(c) => Err(field_err(k, CauseV::Io(c))),
    }
}

/// Optional string field: absence yields the default; faults are fatal.
pub open spec fn opt_string(m: Store, k: Seq<char>, d: Seq<char>) -> Result<
    Seq<char>,
    DecodeErrorV,
> {
    match slot(m, k) {
        Slot::Found(s) => Ok(s),
        Slot::Missing => Ok(d),
        Slot::Faulted(c) => Err(field_err(k, CauseV::Io(c))),
    }
}

/// Best-effort boolean field: every failure, of any kind — absence, a
/// malformed text, a faulted read — reads as `false`. This is deliberately
/// asymmetric with the other optional fields, which tolerate absence alone:
/// the flag must never block reconstructing the rest of the record.
pub open spec fn best_effort_bool(m: Store, k: Seq<char>) -> bool {
    match slot(m, k) {
        Slot::Found(s) => match parse_bool_spec(s) {
            Some(b) => b,
            None => false,
        },
        Slot::Missing => false,
        Slot::Faulted(_) => false,
    }
}

/// Optional unsigned field: absence yields zero; a present text that fails
/// the coercion, or a fault, is fatal.
pub open spec fn opt_usize(m: Store, k: Seq<char>) -> Result<usize, DecodeErrorV> {
    match slot(m, k) {
        Slot::Found(s) => match parse_usize_spec(s) {
            Some(v) => Ok(v),
            None => Err(field_err(k, CauseV::Io(s))),
        },
        Slot::Missing => Ok(0),
        Slot::Faulted(c) => Err(field_err(k, CauseV::Io(c))),
    }
}

/// Required 128-bit timestamp field.
pub open spec fn req_u128(m: Store, k: Seq<char>) -> Result<u128, DecodeErrorV> {
    match slot(m, k) {
        Slot::Found(s) => match parse_u128_spec(s) {
            Some(v) => Ok(v),
            None => Err(field_err(k, CauseV::Io(s))),
        },
        Slot::Missing => Err(field_err(k, CauseV::NotFound)),
        Slot::Faulted(c) => Err(field_err(k, CauseV::Io(c))),
    }
}

/// Required object-id field: read as a string, then parsed.
pub open spec fn req_oid(m: Store, k: Seq<char>) -> Result<Seq<char>, DecodeErrorV> {
    match slot(m, k) {
        Slot::Found(s) => if oid_text_valid(s) {
            Ok(s)
        } else {
            Err(field_err(k, CauseV::Malformed(s)))
        },
        Slot::Missing => Err(field_err(k, CauseV::NotFound)),
        Slot::Faulted(c) => Err(field_err(k, CauseV::Io(c))),
    }
}

/// Optional upstream field: absence and the empty text both mean "no
/// upstream"; any other text must parse as a remote-branch reference.
pub open spec fn opt_upstream(m: Store, k: Seq<char>) -> Result<
    Option<RemoteBranchNameV>,
    DecodeErrorV,
> {
    match slot(m, k) {
        Slot::Found(s) => if s.len() == 0 {
            Ok(None)
        } else {
            match remote_name_spec(s) {
                Some(u) => Ok(Some(u)),
                None => Err(field_err(k, CauseV::Malformed(s))),
            }
        },
        Slot::Missing => Ok(None),
        Slot::Faulted(c) => Err(field_err(k, CauseV::Io(c))),
    }
}

/// Required ownership field: read as a string, then parsed.
pub open spec fn req_ownership(m: Store, k: Seq<char>) -> Result<Seq<char>, DecodeErrorV> {
    match slot(m, k) {
        Slot::Found(s) => if ownership_text_valid(s) {
            Ok(s)
        } else {
            Err(field_err(k, CauseV::Malformed(s)))
        },
        Slot::Missing => Err(field_err(k, CauseV::NotFound)),
        Slot::Faulted(c) => Err(field_err(k, CauseV::Io(c))),
    }
}

pub open spec fn f_id(m: Store) -> Result<Seq<char>, DecodeErrorV> {
    req_string(m, "id"@)
}

pub open spec fn f_name(m: Store) -> Result<Seq<char>, DecodeErrorV> {
    req_string(m, "meta/name"@)
}

pub open spec fn f_notes(m: Store) -> Result<Seq<char>, DecodeErrorV> {
    opt_string(m, "meta/notes"@, Seq::<char>::empty())
}

pub open spec fn f_applied(m: Store) -> bool {
    best_effort_bool(m, "meta/applied"@)
}

pub open spec fn f_order(m: Store) -> Result<usize, DecodeErrorV> {
    opt_usize(m, "meta/order"@)
}

pub open spec fn f_upstream(m: Store) -> Result<Option<RemoteBranchNameV>, DecodeErrorV> {
    opt_upstream(m, "meta/upstream"@)
}

pub open spec fn f_tree(m: Store) -> Result<Seq<char>, DecodeErrorV> {
    req_oid(m, "meta/tree"@)
}

pub open spec fn f_head(m: Store) -> Result<Seq<char>, DecodeErrorV> {
    req_oid(m, "meta/head"@)
}

pub open spec fn f_created(m: Store) -> Result<u128, DecodeErrorV> {
    req_u128(m, "meta/created_timestamp_ms"@)
}

pub open spec fn f_updated(m: Store) -> Result<u128, DecodeErrorV> {
    req_u128(m, "meta/updated_timestamp_ms"@)
}

pub open spec fn f_ownership(m: Store) -> Result<Seq<char>, DecodeErrorV> {
    req_ownership(m, "meta/ownership"@)
}

/// What decoding one branch record from a store yields: the decoded record,
/// or the first fatal field error in protocol order. The `meta/applied`
/// field never contributes an error.
pub open spec fn decode_spec(m: Store) -> Result<BranchV, DecodeErrorV> {
    if f_id(m) is Err {
        Err(f_id(m)->Err_0)
    } else if f_name(m) is Err {
        Err(f_name(m)->Err_0)
    } else if f_notes(m) is Err {
        Err(f_notes(m)->Err_0)
    } else if f_order(m) is Err {
        Err(f_order(m)->Err_0)
    } else if f_upstream(m) is Err {
        Err(f_upstream(m)->Err_0)
    } else if f_tree(m) is Err {
        Err(f_tree(m)->Err_0)
    } else if f_head(m) is Err {
        Err(f_head(m)->Err_0)
    } else if f_created(m) is Err {
        Err(f_created(m)->Err_0)
    } else if f_updated(m) is Err {
        Err(f_updated(m)->Err_0)
    } else if f_ownership(m) is Err {
        Err(f_ownership(m)->Err_0)
    } else {
        Ok(
            BranchV {
                id: f_id(m)->Ok_0,
                name: f_name(m)->Ok_0,
                notes: f_notes(m)->Ok_0,
                applied: f_applied(m),
                upstream: f_upstream(m)->Ok_0,
                created_timestamp_ms: f_created(m)->Ok_0,
                updated_timestamp_ms: f_updated(m)->Ok_0,
                tree: f_tree(m)->Ok_0,
                head: f_head(m)->Ok_0,
                ownership: f_ownership(m)->Ok_0,
                order: f_order(m)->Ok_0,
            },
        )
    }
}

/// For a store with every key present and valid, decode succeeds, and each
/// field of the result equals the stored value after its type coercion.
pub proof fn lemma_complete_record_decodes(m: Store)
    requires
        slot(m, "id"@) is Found,
        slot(m, "meta/name"@) is Found,
        slot(m, "meta/notes"@) is Found,
        slot(m, "meta/applied"@) is Found,
        parse_bool_spec(slot(m, "meta/applied"@)->Found_0) is Some,
        slot(m, "meta/order"@) is Found,
        parse_usize_spec(slot(m, "meta/order"@)->Found_0) is Some,
        slot(m, "meta/upstream"@) is Found,
        slot(m, "meta/upstream"@)->Found_0.len() > 0,
        remote_name_spec(slot(m, "meta/upstream"@)->Found_0) is Some,
        slot(m, "meta/tree"@) is Found,
        oid_text_valid(slot(m, "meta/tree"@)->Found_0),
        slot(m, "meta/head"@) is Found,
        oid_text_valid(slot(m, "meta/head"@)->Found_0),
        slot(m, "meta/created_timestamp_ms"@) is Found,
        parse_u128_spec(slot(m, "meta/created_timestamp_ms"@)->Found_0) is Some,
        slot(m, "meta/updated_timestamp_ms"@) is Found,
        parse_u128_spec(slot(m, "meta/updated_timestamp_ms"@)->Found_0) is Some,
        slot(m, "meta/ownership"@) is Found,
        ownership_text_valid(slot(m, "meta/ownership"@)->Found_0),
    ensures
        decode_spec(m) matches Ok(b) && {
            &&& b.id == slot(m, "id"@)->Found_0
            &&& b.name == slot(m, "meta/name"@)->Found_0
            &&& b.notes == slot(m, "meta/notes"@)->Found_0
            &&& b.applied == parse_bool_spec(slot(m, "meta/applied"@)->Found_0)->Some_0
            &&& b.order == parse_usize_spec(slot(m, "meta/order"@)->Found_0)->Some_0
            &&& b.upstream == Some(remote_name_spec(slot(m, "meta/upstream"@)->Found_0)->Some_0)
            &&& b.tree == slot(m, "meta/tree"@)->Found_0
            &&& b.head == slot(m, "meta/head"@)->Found_0
            &&& b.created_timestamp_ms == parse_u128_spec(
                slot(m, "meta/created_timestamp_ms"@)->Found_0,
            )->Some_0
            &&& b.updated_timestamp_ms == parse_u128_spec(
                slot(m, "meta/updated_timestamp_ms"@)->Found_0,
            )->Some_0
            &&& b.ownership == slot(m, "meta/ownership"@)->Found_0
        },
{
}

/// A record that decodes with `meta/notes` absent has empty notes; with
/// `meta/order` absent, order zero; with `meta/upstream` absent, or stored
/// as the empty string, no upstream.
pub proof fn lemma_optional_defaults(m: Store)
    requires
        decode_spec(m) is Ok,
    ensures
        slot(m, "meta/notes"@) is Missing ==> decode_spec(m)->Ok_0.notes
            == Seq::<char>::empty(),
        slot(m, "meta/order"@) is Missing ==> decode_spec(m)->Ok_0.order == 0,
        slot(m, "meta/upstream"@) is Missing ==> decode_spec(m)->Ok_0.upstream is None,
        slot(m, "meta/upstream"@) matches Slot::Found(s) && s.len() == 0 ==> decode_spec(
            m,
        )->Ok_0.upstream is None,
{
}

/// The protocol's keys are pairwise distinct wherever a law below relies on
/// telling two of them apart.
pub proof fn lemma_branch_keys_distinct()
    ensures
        "id"@ != "meta/applied"@,
        "meta/name"@ != "meta/applied"@,
        "meta/notes"@ != "meta/applied"@,
        "meta/order"@ != "meta/applied"@,
        "meta/upstream"@ != "meta/applied"@,
        "meta/tree"@ != "meta/applied"@,
        "meta/head"@ != "meta/applied"@,
        "meta/created_timestamp_ms"@ != "meta/applied"@,
        "meta/updated_timestamp_ms"@ != "meta/applied"@,
        "meta/ownership"@ != "meta/applied"@,
        "id"@ != "meta/name"@,
        "meta/name"@ != "meta/tree"@,
        "meta/name"@ != "meta/head"@,
        "meta/tree"@ != "meta/head"@,
        "meta/created_timestamp_ms"@ != "meta/updated_timestamp_ms"@,
        "meta/ownership"@ != "id"@,
        "meta/ownership"@ != "meta/name"@,
        "meta/ownership"@ != "meta/tree"@,
        "meta/ownership"@ != "meta/head"@,
        "meta/ownership"@ != "meta/created_timestamp_ms"@,
        "meta/ownership"@ != "meta/updated_timestamp_ms"@,
        "id"@ != "meta/tree"@,
        "id"@ != "meta/head"@,
        "id"@ != "meta/created_timestamp_ms"@,
        "id"@ != "meta/updated_timestamp_ms"@,
        "meta/name"@ != "meta/created_timestamp_ms"@,
        "meta/name"@ != "meta/updated_timestamp_ms"@,
        "meta/tree"@ != "meta/created_timestamp_ms"@,
        "meta/tree"@ != "meta/updated_timestamp_ms"@,
        "meta/head"@ != "meta/created_timestamp_ms"@,
        "meta/head"@ != "meta/updated_timestamp_ms"@,
        "id"@.len() == 2,
        "meta/name"@.len() == 9,
        "meta/notes"@.len() == 10,
        "meta/applied"@.len() == 12,
        "meta/order"@.len() == 10,
        "meta/upstream"@.len() == 13,
        "meta/tree"@.len() == 9,
        "meta/head"@.len() == 9,
        "meta/created_timestamp_ms"@.len() == 25,
        "meta/updated_timestamp_ms"@.len() == 25,
        "meta/ownership"@.len() == 14,
        "meta/name"@[5] == 'n',
        "meta/tree"@[5] == 't',
        "meta/head"@[5] == 'h',
        "meta/notes"@[5] == 'n',
        "meta/order"@[5] == 'o',
        "meta/created_timestamp_ms"@[5] == 'c',
        "meta/updated_timestamp_ms"@[5] == 'u',
{
    reveal_strlit("id");
    reveal_strlit("meta/name");
    reveal_strlit("meta/notes");
    reveal_strlit("meta/applied");
    reveal_strlit("meta/order");
    reveal_strlit("meta/upstream");
    reveal_strlit("meta/tree");
    reveal_strlit("meta/head");
    reveal_strlit("meta/created_timestamp_ms");
    reveal_strlit("meta/updated_timestamp_ms");
    reveal_strlit("meta/ownership");
    assert("id"@.len() == 2);
    assert("meta/name"@.len() == 9);
    assert("meta/notes"@.len() == 10);
    assert("meta/applied"@.len() == 12);
    assert("meta/order"@.len() == 10);
    assert("meta/upstream"@.len() == 13);
    assert("meta/tree"@.len() == 9);
    assert("meta/head"@.len() == 9);
    assert("meta/created_timestamp_ms"@.len() == 25);
    assert("meta/updated_timestamp_ms"@.len() == 25);
    assert("meta/ownership"@.len() == 14);
    assert("meta/name"@[5] == 'n');
    assert("meta/tree"@[5] == 't');
    assert("meta/head"@[5] == 'h');
    assert("meta/notes"@[5] == 'n');
    assert("meta/order"@[5] == 'o');
    assert("meta/created_timestamp_ms"@[5] == 'c');
    assert("meta/updated_timestamp_ms"@[5] == 'u');
}

/// Whatever the `meta/applied` entry holds, a decode never fails on that
/// key, and a record that decodes without a stored, well-formed boolean
/// there — the key absent, its text malformed, or its read faulted — has
/// `applied == false`.
pub proof fn lemma_applied_best_effort(m: Store)
    ensures
        decode_spec(m) is Err ==> decode_spec(m)->Err_0.key != "meta/applied"@,
        decode_spec(m) is Ok && !(slot(m, "meta/applied"@) matches Slot::Found(s)
            && parse_bool_spec(s) is Some) ==> decode_spec(m)->Ok_0.applied == false,
{
    lemma_branch_keys_distinct();
}

/// Two stores that agree on every key but `meta/applied` decode alike in
/// every respect but the `applied` flag: the suppression of that field's
/// faults leaves the decode of every other field unaffected.
pub proof fn lemma_applied_isolated(m1: Store, m2: Store)
    requires
        forall|k: Seq<char>| k != "meta/applied"@ ==> #[trigger] slot(m1, k) == slot(m2, k),
    ensures
        decode_spec(m1) is Err <==> decode_spec(m2) is Err,
        decode_spec(m1) is Err ==> decode_spec(m1) == decode_spec(m2),
        decode_spec(m1) is Ok ==> {
            let b1 = decode_spec(m1)->Ok_0;
            let b2 = decode_spec(m2)->Ok_0;
            &&& b1.id == b2.id
            &&& b1.name == b2.name
            &&& b1.notes == b2.notes
            &&& b1.upstream == b2.upstream
            &&& b1.created_timestamp_ms == b2.created_timestamp_ms
            &&& b1.updated_timestamp_ms == b2.updated_timestamp_ms
            &&& b1.tree == b2.tree
            &&& b1.head == b2.head
            &&& b1.ownership == b2.ownership
            &&& b1.order == b2.order
        },
{
    lemma_branch_keys_distinct();
    assert(slot(m1, "id"@) == slot(m2, "id"@));
    assert(slot(m1, "meta/name"@) == slot(m2, "meta/name"@));
    assert(slot(m1, "meta/notes"@) == slot(m2, "meta/notes"@));
    assert(slot(m1, "meta/order"@) == slot(m2, "meta/order"@));
    assert(slot(m1, "meta/upstream"@) == slot(m2, "meta/upstream"@));
    assert(slot(m1, "meta/tree"@) == slot(m2, "meta/tree"@));
    assert(slot(m1, "meta/head"@) == slot(m2, "meta/head"@));
    assert(slot(m1, "meta/created_timestamp_ms"@) == slot(m2, "meta/created_timestamp_ms"@));
    assert(slot(m1, "meta/updated_timestamp_ms"@) == slot(m2, "meta/updated_timestamp_ms"@));
    assert(slot(m1, "meta/ownership"@) == slot(m2, "meta/ownership"@));
}

/// The seven keys whose fields are required.
pub open spec fn required_key(k: Seq<char>) -> bool {
    ||| k == "id"@
    ||| k == "meta/name"@
    ||| k == "meta/tree"@
    ||| k == "meta/head"@
    ||| k == "meta/created_timestamp_ms"@
    ||| k == "meta/updated_timestamp_ms"@
    ||| k == "meta/ownership"@
}

/// Whether a stored text is acceptable for the required field under a key;
/// `id` and `meta/name` accept any string.
pub open spec fn required_text_ok(k: Seq<char>, s: Seq<char>) -> bool {
    if k == "meta/tree"@ || k == "meta/head"@ {
        oid_text_valid(s)
    } else if k == "meta/created_timestamp_ms"@ || k == "meta/updated_timestamp_ms"@ {
        parse_u128_spec(s) is Some
    } else if k == "meta/ownership"@ {
        ownership_text_valid(s)
    } else {
        true
    }
}

/// The entry under a required key dooms its field: the key absent, or its
/// stored text failing the field's coercion.
pub open spec fn required_bad(m: Store, k: Seq<char>) -> bool {
    ||| slot(m, k) is Missing
    ||| (slot(m, k) matches Slot::Found(s) && !required_text_ok(k, s))
}

/// A required key that is absent, or whose stored text is malformed for its
/// field, fails the whole decode; when every other field reads well, the
/// reported failure names exactly that key.
pub proof fn lemma_required_key_failure(m: Store, k: Seq<char>)
    requires
        required_key(k),
        required_bad(m, k),
        k != "id"@ ==> f_id(m) is Ok,
        k != "meta/name"@ ==> f_name(m) is Ok,
        f_notes(m) is Ok,
        f_order(m) is Ok,
        f_upstream(m) is Ok,
        k != "meta/tree"@ ==> f_tree(m) is Ok,
        k != "meta/head"@ ==> f_head(m) is Ok,
        k != "meta/created_timestamp_ms"@ ==> f_created(m) is Ok,
        k != "meta/updated_timestamp_ms"@ ==> f_updated(m) is Ok,
        k != "meta/ownership"@ ==> f_ownership(m) is Ok,
    ensures
        decode_spec(m) matches Err(e) && e.key == k,
{
    lemma_branch_keys_distinct();
}

/// A present, non-empty, syntactically invalid upstream text fails the
/// whole decode naming `meta/upstream`, however well the rest reads.
pub proof fn lemma_invalid_upstream_fails(m: Store)
    requires
        f_id(m) is Ok,
        f_name(m) is Ok,
        f_notes(m) is Ok,
        f_order(m) is Ok,
        slot(m, "meta/upstream"@) matches Slot::Found(s) && s.len() > 0 && remote_name_spec(s) is None,
    ensures
        decode_spec(m) matches Err(e) && e.key == "meta/upstream"@ && e.cause == CauseV::Malformed(
            slot(m, "meta/upstream"@)->Found_0,
        ),
{
}

/// Well-formedness of a record's structured fields: the object ids and the
/// ownership encoding are valid, and an upstream, when present, has its two
/// non-empty parts with a slash-free remote.
pub open spec fn branch_wf(b: BranchV) -> bool {
    &&& oid_text_valid(b.tree)
    &&& oid_text_valid(b.head)
    &&& ownership_text_valid(b.ownership)
    &&& b.upstream matches Some(u) ==> {
        &&& u.remote.len() > 0
        &&& u.branch.len() > 0
        &&& forall|i: int| 0 <= i < u.remote.len() ==> u.remote[i] != '/'
    }
}

/// The store a record writes: each field rendered under its own key; an
/// absent upstream writes no key.
pub open spec fn store_of(b: BranchV) -> Store {
    let m = Map::<Seq<char>, EntryV>::empty().insert("id"@, EntryV::Value(b.id)).insert(
        "meta/name"@,
        EntryV::Value(b.name),
    ).insert("meta/notes"@, EntryV::Value(b.notes)).insert(
        "meta/applied"@,
        EntryV::Value(bool_text(b.applied)),
    ).insert("meta/order"@, EntryV::Value(dec_digits(b.order as nat))).insert(
        "meta/tree"@,
        EntryV::Value(b.tree),
    ).insert("meta/head"@, EntryV::Value(b.head)).insert(
        "meta/created_timestamp_ms"@,
        EntryV::Value(dec_digits(b.created_timestamp_ms as nat)),
    ).insert(
        "meta/updated_timestamp_ms"@,
        EntryV::Value(dec_digits(b.updated_timestamp_ms as nat)),
    ).insert("meta/ownership"@, EntryV::Value(b.ownership));
    match b.upstream {
        Some(u) => m.insert("meta/upstream"@, EntryV::Value(u.remote + "/"@ + u.branch)),
        None => m,
    }
}

/// Writing every field of a well-formed record under its own key and
/// decoding the store gives back the very record.
pub proof fn lemma_record_round_trip(b: BranchV)
    requires
        branch_wf(b),
    ensures
        decode_spec(store_of(b)) == Ok::<BranchV, DecodeErrorV>(b),
{
    lemma_branch_keys_distinct();
    lemma_bool_round_trip(b.applied);
    lemma_usize_round_trip(b.order);
    lemma_u128_round_trip(b.created_timestamp_ms);
    lemma_u128_round_trip(b.updated_timestamp_ms);
    let m = store_of(b);
    assert(slot(m, "id"@) == Slot::Found(b.id));
    assert(slot(m, "meta/name"@) == Slot::Found(b.name));
    assert(slot(m, "meta/notes"@) == Slot::Found(b.notes));
    assert(slot(m, "meta/applied"@) == Slot::Found(bool_text(b.applied)));
    assert(slot(m, "meta/order"@) == Slot::Found(dec_digits(b.order as nat)));
    assert(slot(m, "meta/tree"@) == Slot::Found(b.tree));
    assert(slot(m, "meta/head"@) == Slot::Found(b.head));
    assert(slot(m, "meta/created_timestamp_ms"@) == Slot::Found(
        dec_digits(b.created_timestamp_ms as nat),
    ));
    assert(slot(m, "meta/updated_timestamp_ms"@) == Slot::Found(
        dec_digits(b.updated_timestamp_ms as nat),
    ));
    assert(slot(m, "meta/ownership"@) == Slot::Found(b.ownership));
    match b.upstream {
        Some(u) => {
            lemma_remote_name_round_trip(u);
            let s = u.remote + "/"@ + u.branch;
            assert(slot(m, "meta/upstream"@) == Slot::Found(s));
            assert(s.len() > 0);
            assert(f_upstream(m) == Ok::<Option<RemoteBranchNameV>, DecodeErrorV>(Some(u)));
        },
        None => {
            assert(slot(m, "meta/upstream"@) is Missing);
        },
    }
    assert(decode_spec(m) is Ok);
    assert(decode_spec(m)->Ok_0 =~= b);
}

/// Turn a reader error into the decode cause it stands for.
fn read_cause(e: ReadError) -> (c: DecodeCause)
    ensures
        c@ == match e {
            ReadError::NotFound => CauseV::NotFound,
            ReadError::Io(m) => CauseV::Io(m@),
        },
{
    match e {
        ReadError::NotFound => DecodeCause::NotFound,
        ReadError::Io(m) => DecodeCause::Io(m),
    }
}

impl Branch {
    /// Reconstruct one branch record from the reader bound to its key
    /// namespace, looking each field up under its own key, applying each
    /// field's presence policy, and reporting the first fatal error with the
    /// offending key and its cause.
    pub fn try_from<R: Reader>(reader: &R) -> (r: Result<Branch, DecodeError>)
        ensures
            match r {
                Ok(b) => decode_spec(reader.store()) matches Ok(bv) && b@ == bv,
                Err(e) => decode_spec(reader.store()) matches Err(ev) && e@ == ev,
            },
    {
        let id = match reader.read_string("id") {
            Ok(v) => v,
            Err(e) => {
                return Err(DecodeError { key: String::from_str("id"), cause: read_cause(e) });
            },
        };
        let name = match reader.read_string("meta/name") {
            Ok(v) => v,
            Err(e) => {
                return Err(
                    DecodeError { key: String::from_str("meta/name"), cause: read_cause(e) },
                );
            },
        };
        let notes = match reader.read_string("meta/notes") {
            Ok(v) => v,
            Err(ReadError::NotFound) => String::new(),
            Err(ReadError::Io(c)) => {
                return Err(
                    DecodeError { key: String::from_str("meta/notes"), cause: DecodeCause::Io(c) },
                );
            },
        };
        let applied = match reader.read_bool("meta/applied") {
            Ok(b) => b,
            Err(_) => false,
        };
        let order = match reader.read_usize("meta/order") {
            Ok(v) => v,
            Err(ReadError::NotFound) => 0,
            Err(ReadError::Io(c)) => {
                return Err(
                    DecodeError { key: String::from_str("meta/order"), cause: DecodeCause::Io(c) },
                );
            },
        };
        let upstream = match reader.read_string("meta/upstream") {
            Ok(v) => {
                if v.as_str().is_empty() {
                    None
                } else {
                    match RemoteBranchName::parse(v.as_str()) {
                        Some(u) => Some(u),
                        None => {
                            return Err(
                                DecodeError {
                                    key: String::from_str("meta/upstream"),
                                    cause: DecodeCause::Malformed(v),
                                },
                            );
                        },
                    }
                }
            },
            Err(ReadError::NotFound) => None,
            Err(ReadError::Io(c)) => {
                return Err(
                    DecodeError {
                        key: String::from_str("meta/upstream"),
                        cause: DecodeCause::Io(c),
                    },
                );
            },
        };
        let tree_text = match reader.read_string("meta/tree") {
            Ok(v) => v,
            Err(e) => {
                return Err(
                    DecodeError { key: String::from_str("meta/tree"), cause: read_cause(e) },
                );
            },
        };
        let tree = match Oid::parse(tree_text.as_str()) {
            Some(o) => o,
            None => {
                return Err(
                    DecodeError {
                        key: String::from_str("meta/tree"),
                        cause: DecodeCause::Malformed(tree_text),
                    },
                );
            },
        };
        let head_text = match reader.read_string("meta/head") {
            Ok(v) => v,
            Err(e) => {
                return Err(
                    DecodeError { key: String::from_str("meta/head"), cause: read_cause(e) },
                );
            },
        };
        let head = match Oid::parse(head_text.as_str()) {
            Some(o) => o,
            None => {
                return Err(
                    DecodeError {
                        key: String::from_str("meta/head"),
                        cause: DecodeCause::Malformed(head_text),
                    },
                );
            },
        };
        let created_timestamp_ms = match reader.read_u128("meta/created_timestamp_ms") {
            Ok(v) => v,
            Err(e) => {
                return Err(
                    DecodeError {
                        key: String::from_str("meta/created_timestamp_ms"),
                        cause: read_cause(e),
                    },
                );
            },
        };
        let updated_timestamp_ms = match reader.read_u128("meta/updated_timestamp_ms") {
            Ok(v) => v,
            Err(e) => {
                return Err(
                    DecodeError {
                        key: String::from_str("meta/updated_timestamp_ms"),
                        cause: read_cause(e),
                    },
                );
            },
        };
        let ownership_text = match reader.read_string("meta/ownership") {
            Ok(v) => v,
            Err(e) => {
                return Err(
                    DecodeError { key: String::from_str("meta/ownership"), cause: read_cause(e) },
                );
            },
        };
        let ownership = match Ownership::parse(ownership_text.as_str()) {
            Some(o) => o,
            None => {
                return Err(
                    DecodeError {
                        key: String::from_str("meta/ownership"),
                        cause: DecodeCause::Malformed(ownership_text),
                    },
                );
            },
        };
        let b = Branch {
            id,
            name,
            notes,
            applied,
            upstream,
            created_timestamp_ms,
            updated_timestamp_ms,
            tree,
            head,
            ownership,
            order,
        };
        proof {
            assert(b@ =~= decode_spec(reader.store())->Ok_0);
        }
        Ok(b)
    }
}

} // verus!
