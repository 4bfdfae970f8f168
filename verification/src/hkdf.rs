//! HKDF mechanism parameters.
//!
//! The high-level description of an HKDF configuration is a pair of
//! booleans (run the extract stage, run the expand stage), a PRF hash
//! mechanism identifier, a salt given in one of three ways, and an info
//! byte string. The token interface instead consumes a flat, fixed-layout
//! record: two byte flags, a numeric mechanism field, a salt-kind
//! discriminant, a nullable salt pointer/length pair, a salt key handle,
//! and an info pointer/length pair. This module builds such records and
//! reads them back, keeping discriminant and payload fields consistent.
//!
//! A pointer/length pair is modeled as a borrowed slice (for the nullable
//! salt pointer, an `Option` of one) together with an explicit length
//! field of the foreign integer width, which is 64 bits on this target.

use vstd::prelude::*;

use crate::mechanism::MechanismType;
use crate::object::ObjectHandle;

verus! {

/// Salt-kind discriminant: no salt is supplied.
pub const SALT_TYPE_NULL: u64 = 0x1;

/// Salt-kind discriminant: the salt is supplied as bytes through the
/// salt pointer/length pair.
pub const SALT_TYPE_DATA: u64 = 0x2;

/// Salt-kind discriminant: the salt is supplied indirectly, as a handle
/// to a key object held by the token.
pub const SALT_TYPE_KEY: u64 = 0x4;

/// The salt for the extract stage.
#[derive(Debug, Clone, Copy)]
pub enum HkdfSalt<'a> {
    /// No salt is supplied.
    Null,
    /// The salt is supplied as explicit bytes, borrowed from the caller.
    Data(&'a [u8]),
    /// The salt is supplied as a key object held by the token.
    Key(ObjectHandle),
}

/// Mathematical view of an [`HkdfSalt`]: the borrowed bytes become a
/// sequence, the handle its raw value.
pub enum SaltModel {
    Null,
    Data(Seq<u8>),
    Key(u64),
}

impl<'a> View for HkdfSalt<'a> {
    type V = SaltModel;

    open spec fn view(&self) -> SaltModel {
        match *self {
            HkdfSalt::Null => SaltModel::Null,
            HkdfSalt::Data(data) => SaltModel::Data(data@),
            HkdfSalt::Key(key) => SaltModel::Key(key@),
        }
    }
}

/// Errors raised by this layer.
#[derive(Debug, Clone, Copy, PartialEq, Eq, Structural)]
pub enum HkdfError {
    /// A byte sequence's length cannot be represented in the foreign
    /// record's integer width. Raised at build time; never silently
    /// truncated.
    LengthOverflow,
    /// A record presents a salt-kind discriminant outside the defined
    /// set of three values. Raised when reading; such a record was
    /// corrupted or produced outside this layer's invariants.
    InvalidDiscriminant,
}

/// HKDF parameters in the token interface's fixed record layout.
///
/// The salt pointer is nullable, so it appears here as an `Option` of a
/// borrowed slice; the info pointer is always non-null (an empty slice is
/// a valid zero-length buffer). The explicit length fields carry the
/// counts in the foreign integer width. Borrowing ties the record's
/// lifetime to the caller-owned buffers it points into.
#[derive(Debug, Clone, Copy)]
pub struct HkdfParams<'a> {
    /// Nonzero means: run the extract stage.
    pub b_extract: u8,
    /// Nonzero means: run the expand stage.
    pub b_expand: u8,
    /// The hash mechanism used as the PRF.
    pub prf_hash_mechanism: u64,
    /// Salt-kind discriminant; one of the three `SALT_TYPE_*` values in
    /// any record this layer builds.
    pub ul_salt_type: u64,
    /// Salt pointer/buffer; meaningful only when `ul_salt_type` is
    /// `SALT_TYPE_DATA`, null (`None`) otherwise.
    pub p_salt: Option<&'a [u8]>,
    /// Salt byte count; meaningful only when `ul_salt_type` is
    /// `SALT_TYPE_DATA`, zero otherwise.
    pub ul_salt_len: u64,
    /// Salt key handle; meaningful only when `ul_salt_type` is
    /// `SALT_TYPE_KEY`, zero otherwise.
    pub h_salt_key: u64,
    /// Info pointer/buffer for the expand stage; always present.
    pub p_info: &'a [u8],
    /// Info byte count.
    pub ul_info_len: u64,
}

/// Mathematical view of an [`HkdfParams`] record: each pointer becomes
/// the sequence of bytes it points to, every other field its plain value.
#[verifier::ext_equal]
pub struct RecordModel {
    pub b_extract: u8,
    pub b_expand: u8,
    pub prf_hash_mechanism: u64,
    pub ul_salt_type: u64,
    pub p_salt: Option<Seq<u8>>,
    pub ul_salt_len: u64,
    pub h_salt_key: u64,
    pub p_info: Seq<u8>,
    pub ul_info_len: u64,
}

impl<'a> View for HkdfParams<'a> {
    type V = RecordModel;

    open spec fn view(&self) -> RecordModel {
        RecordModel {
            b_extract: self.b_extract,
            b_expand: self.b_expand,
            prf_hash_mechanism: self.prf_hash_mechanism,
            ul_salt_type: self.ul_salt_type,
            p_salt: match self.p_salt {
                Some(data) => Some(data@),
                None => None,
            },
            ul_salt_len: self.ul_salt_len,
            h_salt_key: self.h_salt_key,
            p_info: self.p_info@,
            ul_info_len: self.ul_info_len,
        }
    }
}

/// The largest count representable in the foreign record's integer
/// width: the width is 64 bits on this target.
pub open spec fn length_fits(n: nat) -> bool {
    n <= u64::MAX
}

/// Whether the salt's byte count (if the salt is explicit bytes) is
/// representable in the foreign integer width.
pub open spec fn salt_fits(salt: SaltModel) -> bool {
    match salt {
        SaltModel::Data(data) => length_fits(data.len()),
        _ => true,
    }
}

/// Whether a discriminant value belongs to the defined set of three.
pub open spec fn valid_salt_type(t: u64) -> bool {
    t == SALT_TYPE_NULL || t == SALT_TYPE_DATA || t == SALT_TYPE_KEY
}

/// The record the builder lays out for the given description, assuming
/// both byte counts fit the foreign integer width.
pub open spec fn record_of(
    extract: bool,
    expand: bool,
    prf_hash_mechanism: u64,
    salt: SaltModel,
    info: Seq<u8>,
) -> RecordModel {
    RecordModel {
        b_extract: if extract { 1u8 } else { 0u8 },
        b_expand: if expand { 1u8 } else { 0u8 },
        prf_hash_mechanism: prf_hash_mechanism,
        ul_salt_type: match salt {
            SaltModel::Null => SALT_TYPE_NULL,
            SaltModel::Data(_) => SALT_TYPE_DATA,
            SaltModel::Key(_) => SALT_TYPE_KEY,
        },
        p_salt: match salt {
            SaltModel::Data(data) => Some(data),
            _ => None,
        },
        ul_salt_len: match salt {
            SaltModel::Data(data) => data.len() as u64,
            _ => 0,
        },
        h_salt_key: match salt {
            SaltModel::Key(key) => key,
            _ => 0,
        },
        p_info: info,
        ul_info_len: info.len() as u64,
    }
}

/// What building yields: the laid-out record when every byte count fits
/// the foreign integer width, and `LengthOverflow` otherwise.
pub open spec fn build_model(
    extract: bool,
    expand: bool,
    prf_hash_mechanism: u64,
    salt: SaltModel,
    info: Seq<u8>,
) -> Result<RecordModel, HkdfError> {
    if salt_fits(salt) && length_fits(info.len()) {
        Ok(record_of(extract, expand, prf_hash_mechanism, salt, info))
    } else {
        Err(HkdfError::LengthOverflow)
    }
}

/// The bytes the record's salt pointer points to (empty when null).
pub open spec fn salt_bytes_of(r: RecordModel) -> Seq<u8> {
    match r.p_salt {
        Some(data) => data,
        None => Seq::empty(),
    }
}

/// The salt the reader reconstructs from a record, dispatching purely
/// on the discriminant. Meaningful only for a valid discriminant.
pub open spec fn salt_of_record(r: RecordModel) -> SaltModel
    recommends
        valid_salt_type(r.ul_salt_type),
{
    if r.ul_salt_type == SALT_TYPE_NULL {
        SaltModel::Null
    } else if r.ul_salt_type == SALT_TYPE_DATA {
        SaltModel::Data(salt_bytes_of(r))
    } else {
        SaltModel::Key(r.h_salt_key)
    }
}

impl RecordModel {
    /// The invariant of every record this layer builds: the discriminant
    /// is one of the three defined values, exactly the fields that
    /// variant needs are populated (the others are zero or null), the
    /// info buffer is always present, and each length field equals the
    /// byte count of the buffer it describes.
    pub open spec fn wf(self) -> bool {
        &&& valid_salt_type(self.ul_salt_type)
        &&& self.ul_salt_type == SALT_TYPE_NULL ==> {
            &&& self.p_salt is None
            &&& self.ul_salt_len == 0
            &&& self.h_salt_key == 0
        }
        &&& self.ul_salt_type == SALT_TYPE_DATA ==> {
            &&& self.p_salt is Some
            &&& self.ul_salt_len == salt_bytes_of(self).len()
            &&& self.h_salt_key == 0
        }
        &&& self.ul_salt_type == SALT_TYPE_KEY ==> {
            &&& self.p_salt is None
            &&& self.ul_salt_len == 0
        }
        &&& self.ul_info_len == self.p_info.len()
    }
}

/// Checked narrowing from the native length type to the foreign integer
/// width. Never wraps: an unrepresentable count is reported as
/// `LengthOverflow`.
fn checked_length(n: usize) -> (r: Result<u64, HkdfError>)
    ensures
        n <= u64::MAX ==> r == Ok::<u64, HkdfError>(n as u64),
        n > u64::MAX ==> r == Err::<u64, HkdfError>(HkdfError::LengthOverflow),
        r is Ok,
{
    // The native length type is at most 64 bits wide on every supported
    // target, so the narrowing to the 64-bit foreign width is proved
    // lossless; a wider count would take the error path of the contract.
    proof {
        assert(usize::MAX <= u64::MAX);
    }
    Ok(n as u64)
}

impl<'a> HkdfParams<'a> {
    /// Construct parameters for hash-based key derivation (HKDF).
    ///
    /// Lays out the fixed record for the given description: flag bytes
    /// from the booleans (1 for true, 0 for false), the discriminant and
    /// exactly the salt fields that the salt variant needs, and the
    /// pointer/length pairs over the borrowed buffers. Each byte count
    /// goes through a checked narrowing to the foreign integer width;
    /// an unrepresentable count is reported as `LengthOverflow`, never
    /// silently truncated.
    ///
    /// # Arguments
    ///
    /// * `extract` - Whether to execute the extract portion of HKDF.
    ///
    /// * `expand` - Whether to execute the expand portion of HKDF.
    ///
    /// * `prf_hash_mechanism` - The base hash used for the HMAC in the
    ///   underlying HKDF operation.
    ///
    /// * `salt` - The salt for the extract stage.
    ///
    /// * `info` - The info string for the expand stage.
    pub fn new(
        extract: bool,
        expand: bool,
        prf_hash_mechanism: MechanismType,
        salt: HkdfSalt<'a>,
        info: &'a [u8],
    ) -> (r: Result<Self, HkdfError>)
        ensures
            ({
                match build_model(extract, expand, prf_hash_mechanism@, salt@, info@) {
                    Ok(m) => r matches Ok(p) && p@ == m,
                    Err(e) => r matches Err(e2) && e2 == e,
                }
            }),
            r matches Ok(p) ==> p@.wf(),
            r is Ok,
    {
        let ul_salt_len: u64 = match salt {
            HkdfSalt::Data(data) => match checked_length(data.len()) {
                Ok(n) => n,
                Err(e) => {
                    return Err(e);
                },
            },
            _ => 0,
        };
        let ul_info_len: u64 = match checked_length(info.len()) {
            Ok(n) => n,
            Err(e) => {
                return Err(e);
            },
        };
        Ok(HkdfParams {
            b_extract: if extract {
                1
            } else {
                0
            },
            b_expand: if expand {
                1
            } else {
                0
            },
            prf_hash_mechanism: prf_hash_mechanism.value(),
            ul_salt_type: match salt {
                HkdfSalt::Null => SALT_TYPE_NULL,
                HkdfSalt::Data(_) => SALT_TYPE_DATA,
                HkdfSalt::Key(_) => SALT_TYPE_KEY,
            },
            p_salt: match salt {
                HkdfSalt::Data(data) => Some(data),
                _ => None,
            },
            ul_salt_len,
            h_salt_key: match salt {
                HkdfSalt::Key(key) => key.handle(),
                _ => 0,
            },
            p_info: info,
            ul_info_len,
        })
    }

    /// Whether to execute the extract portion of HKDF.
    pub fn extract(&self) -> (r: bool)
        ensures
            r == (self@.b_extract != 0),
    {
        self.b_extract != 0
    }

    /// Whether to execute the expand portion of HKDF.
    pub fn expand(&self) -> (r: bool)
        ensures
            r == (self@.b_expand != 0),
    {
        self.b_expand != 0
    }

    /// The salt for the extract stage, reconstructed from the record by
    /// dispatching purely on the discriminant.
    ///
    /// The precondition is the reader's trust assumption: when the
    /// discriminant selects explicit data, the salt pointer is non-null
    /// and valid for the recorded byte count. A discriminant outside the
    /// defined set aborts the read with `InvalidDiscriminant` rather
    /// than guessing a variant.
    pub fn salt(&self) -> (r: Result<HkdfSalt<'a>, HkdfError>)
        requires
            self@.ul_salt_type == SALT_TYPE_DATA ==> {
                &&& self@.p_salt is Some
                &&& self@.ul_salt_len == salt_bytes_of(self@).len()
            },
        ensures
            valid_salt_type(self@.ul_salt_type) ==> (r matches Ok(s) && s@ == salt_of_record(
                self@,
            )),
            !valid_salt_type(self@.ul_salt_type) ==> r == Err::<
                HkdfSalt<'a>,
                HkdfError,
            >(HkdfError::InvalidDiscriminant),
    {
        if self.ul_salt_type == SALT_TYPE_NULL {
            Ok(HkdfSalt::Null)
        } else if self.ul_salt_type == SALT_TYPE_DATA {
            Ok(HkdfSalt::Data(self.p_salt.unwrap()))
        } else if self.ul_salt_type == SALT_TYPE_KEY {
            Ok(HkdfSalt::Key(ObjectHandle::new(self.h_salt_key)))
        } else {
            Err(HkdfError::InvalidDiscriminant)
        }
    }

    /// The info string for the expand stage, reconstructed from the info
    /// pointer/length pair. This path has no discriminant and is
    /// unconditionally present.
    ///
    /// The precondition is the reader's trust assumption: the info
    /// pointer is valid for the recorded byte count.
    pub fn info(&self) -> (r: &'a [u8])
        requires
            self@.ul_info_len == self@.p_info.len(),
        ensures
            r@ == self@.p_info,
    {
        self.p_info
    }
}

/// Every record the builder lays out satisfies the record invariant:
/// a valid discriminant, exactly the fields of its variant populated,
/// and length fields that match their buffers.
pub proof fn lemma_built_record_wf(
    extract: bool,
    expand: bool,
    prf_hash_mechanism: u64,
    salt: SaltModel,
    info: Seq<u8>,
)
    requires
        salt_fits(salt),
        length_fits(info.len()),
    ensures
        record_of(extract, expand, prf_hash_mechanism, salt, info).wf(),
{
}

/// Round-trip: reading a record built from any representable
/// description reproduces the flags, the PRF hash mechanism, the salt
/// variant with its payload, and the info bytes exactly.
pub proof fn lemma_round_trip(
    extract: bool,
    expand: bool,
    prf_hash_mechanism: u64,
    salt: SaltModel,
    info: Seq<u8>,
)
    requires
        salt_fits(salt),
        length_fits(info.len()),
    ensures
        ({
            let r = record_of(extract, expand, prf_hash_mechanism, salt, info);
            &&& (r.b_extract != 0) == extract
            &&& (r.b_expand != 0) == expand
            &&& r.prf_hash_mechanism == prf_hash_mechanism
            &&& valid_salt_type(r.ul_salt_type)
            &&& salt_of_record(r) == salt
            &&& r.p_info == info
        }),
{
}

/// The field shape of a record whose salt variant is "no salt": every
/// salt field is zero or null.
pub open spec fn salt_fields_all_zero(r: RecordModel) -> bool {
    &&& r.p_salt is None
    &&& r.ul_salt_len == 0
    &&& r.h_salt_key == 0
}

/// The field shape of a record whose salt variant is explicit data: the
/// salt pointer is set and the key handle is zero.
pub open spec fn salt_fields_data_shape(r: RecordModel) -> bool {
    &&& r.p_salt is Some
    &&& r.h_salt_key == 0
}

/// The field shape of a record whose salt variant is a key reference:
/// the salt pointer is null, the salt length is zero, and the key
/// handle is set.
pub open spec fn salt_fields_key_shape(r: RecordModel) -> bool {
    &&& r.p_salt is None
    &&& r.ul_salt_len == 0
    &&& r.h_salt_key != 0
}

/// Discriminant/field consistency: for every record the builder lays
/// out, exactly one of the three salt field shapes holds — each if and
/// only if the discriminant selects the matching variant. A key
/// reference must carry a nonzero handle: with the zero (invalid)
/// handle the key shape would be indistinguishable from the no-salt
/// shape.
pub proof fn lemma_discriminant_field_consistency(
    extract: bool,
    expand: bool,
    prf_hash_mechanism: u64,
    salt: SaltModel,
    info: Seq<u8>,
)
    requires
        salt_fits(salt),
        length_fits(info.len()),
        salt matches SaltModel::Key(key) ==> key != 0,
    ensures
        ({
            let r = record_of(extract, expand, prf_hash_mechanism, salt, info);
            &&& salt_fields_all_zero(r) <==> r.ul_salt_type == SALT_TYPE_NULL
            &&& salt_fields_data_shape(r) <==> r.ul_salt_type == SALT_TYPE_DATA
            &&& salt_fields_key_shape(r) <==> r.ul_salt_type == SALT_TYPE_KEY
            &&& valid_salt_type(r.ul_salt_type)
            &&& salt_fields_all_zero(r) || salt_fields_data_shape(r) || salt_fields_key_shape(r)
            &&& !(salt_fields_all_zero(r) && salt_fields_data_shape(r))
            &&& !(salt_fields_all_zero(r) && salt_fields_key_shape(r))
            &&& !(salt_fields_data_shape(r) && salt_fields_key_shape(r))
        }),
{
}

/// Zero-length distinction: building with explicit zero-length salt
/// data yields the explicit-data discriminant with salt length 0 and a
/// non-null salt pointer, distinguishable from building with no salt,
/// which yields the no-salt discriminant.
pub proof fn lemma_zero_length_salt_distinct(
    extract: bool,
    expand: bool,
    prf_hash_mechanism: u64,
    info: Seq<u8>,
)
    requires
        length_fits(info.len()),
    ensures
        ({
            let rd = record_of(
                extract,
                expand,
                prf_hash_mechanism,
                SaltModel::Data(Seq::empty()),
                info,
            );
            let rn = record_of(extract, expand, prf_hash_mechanism, SaltModel::Null, info);
            &&& rd.ul_salt_type == SALT_TYPE_DATA
            &&& rd.ul_salt_len == 0
            &&& rd.p_salt is Some
            &&& rn.ul_salt_type == SALT_TYPE_NULL
            &&& rd.ul_salt_type != rn.ul_salt_type
        }),
{
}

/// Overflow boundary for the salt: explicit salt bytes whose count
/// equals the foreign integer width's maximum build successfully; one
/// byte more fails with `LengthOverflow`.
pub proof fn lemma_salt_overflow_boundary(
    extract: bool,
    expand: bool,
    prf_hash_mechanism: u64,
    salt_at_max: Seq<u8>,
    salt_over: Seq<u8>,
    info: Seq<u8>,
)
    requires
        salt_at_max.len() == u64::MAX,
        salt_over.len() == u64::MAX + 1,
        length_fits(info.len()),
    ensures
        build_model(extract, expand, prf_hash_mechanism, SaltModel::Data(salt_at_max), info)
            is Ok,
        build_model(extract, expand, prf_hash_mechanism, SaltModel::Data(salt_over), info)
            == Err::<RecordModel, HkdfError>(HkdfError::LengthOverflow),
{
}

/// Overflow boundary for the info string: an info byte count equal to
/// the foreign integer width's maximum builds successfully; one byte
/// more fails with `LengthOverflow`.
pub proof fn lemma_info_overflow_boundary(
    extract: bool,
    expand: bool,
    prf_hash_mechanism: u64,
    salt: SaltModel,
    info_at_max: Seq<u8>,
    info_over: Seq<u8>,
)
    requires
        salt_fits(salt),
        info_at_max.len() == u64::MAX,
        info_over.len() == u64::MAX + 1,
    ensures
        build_model(extract, expand, prf_hash_mechanism, salt, info_at_max) is Ok,
        build_model(extract, expand, prf_hash_mechanism, salt, info_over) == Err::<
            RecordModel,
            HkdfError,
        >(HkdfError::LengthOverflow),
{
}

} // verus!
