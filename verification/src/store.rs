//! The store handle manager: the exact native parameters of opening a
//! system store or importing a PKCS#12 archive, the translation of each
//! call's outcome into a store handle or a typed error, and the exclusive
//! ownership of the one native handle a store value holds.
//!
//! The native open, import and close calls are foreign, unsafe functions;
//! the surrounding application performs them. This module fixes, bit for
//! bit, every parameter word those calls take, and interprets every outcome
//! they can report.

use vstd::prelude::*;

use crate::error::CngError;
use crate::find::{FindModel, FindSession};
use crate::wide::{contains_nul, utf16_of, utf16_units};

verus! {

/// Native identifier of the machine-wide system store location.
pub const CERT_SYSTEM_STORE_LOCAL_MACHINE_ID: u32 = 2;

/// Native identifier of the current-user system store location.
pub const CERT_SYSTEM_STORE_CURRENT_USER_ID: u32 = 1;

/// Native identifier of the current-service system store location.
pub const CERT_SYSTEM_STORE_CURRENT_SERVICE_ID: u32 = 4;

/// Bit position of the location field inside the open flags word.
pub const CERT_SYSTEM_STORE_LOCATION_SHIFT: u32 = 16;

/// Open flag asking for an existing store, never creating one.
pub const CERT_STORE_OPEN_EXISTING_FLAG: u32 = 0x4000;

/// Native identifier of the wide-character system store provider.
pub const CERT_STORE_PROV_SYSTEM_W_ID: u32 = 10;

/// Encoding flag of PKCS#7 ASN.1 certificate encoding.
pub const PKCS_7_ASN_ENCODING: u32 = 0x10000;

/// Encoding flag of X.509 ASN.1 certificate encoding.
pub const X509_ASN_ENCODING: u32 = 0x1;

/// The fixed dual encoding every search uses: both legacy PKCS#7 and X.509
/// ASN.1 encodings, combined bitwise. It never varies at runtime.
pub const MY_ENCODING_TYPE: u32 = PKCS_7_ASN_ENCODING | X509_ASN_ENCODING;

/// Native "find type" word for a subject-substring search.
pub const CERT_FIND_SUBJECT_STR: u32 = 0x80007;

/// Native "find type" word for an issuer-substring search.
pub const CERT_FIND_ISSUER_STR: u32 = 0x80004;

/// Which system-level namespace a store lives in.
#[derive(Clone, Copy, Debug, PartialEq, Eq, Structural, PartialOrd)]
pub enum CertStoreType {
    /// The machine-wide store.
    LocalMachine,
    /// The current user's store.
    CurrentUser,
    /// The current session service's store.
    CurrentService,
}

impl CertStoreType {
    /// The location flags of this store type: its native location
    /// identifier shifted into the location field of the open flags word.
    pub open spec fn spec_as_flags(self) -> u32 {
        match self {
            CertStoreType::LocalMachine => CERT_SYSTEM_STORE_LOCAL_MACHINE_ID
                << CERT_SYSTEM_STORE_LOCATION_SHIFT,
            CertStoreType::CurrentUser => CERT_SYSTEM_STORE_CURRENT_USER_ID
                << CERT_SYSTEM_STORE_LOCATION_SHIFT,
            CertStoreType::CurrentService => CERT_SYSTEM_STORE_CURRENT_SERVICE_ID
                << CERT_SYSTEM_STORE_LOCATION_SHIFT,
        }
    }

    /// The location flags of this store type.
    pub fn as_flags(&self) -> (flags: u32)
        ensures
            flags == self.spec_as_flags(),
    {
        match self {
            CertStoreType::LocalMachine => CERT_SYSTEM_STORE_LOCAL_MACHINE_ID
                << CERT_SYSTEM_STORE_LOCATION_SHIFT,
            CertStoreType::CurrentUser => CERT_SYSTEM_STORE_CURRENT_USER_ID
                << CERT_SYSTEM_STORE_LOCATION_SHIFT,
            CertStoreType::CurrentService => CERT_SYSTEM_STORE_CURRENT_SERVICE_ID
                << CERT_SYSTEM_STORE_LOCATION_SHIFT,
        }
    }
}

/// The location flags take their exact documented values: the location
/// identifier stands in the upper half of the flags word.
pub proof fn lemma_store_type_flag_values()
    ensures
        CertStoreType::LocalMachine.spec_as_flags() == 0x20000,
        CertStoreType::CurrentUser.spec_as_flags() == 0x10000,
        CertStoreType::CurrentService.spec_as_flags() == 0x40000,
{
    assert(2u32 << 16 == 0x20000u32) by (bit_vector);
    assert(1u32 << 16 == 0x10000u32) by (bit_vector);
    assert(4u32 << 16 == 0x40000u32) by (bit_vector);
}

/// Every parameter word of one native "open system store" call: the
/// wide-character system store provider, the (unused) encoding word, the
/// flags word that combines the location with the open-existing flag, and
/// the store name in its wide form. The application passes these to the
/// native open call, bit for bit, together with no explicit provider
/// handle, and reports the outcome to [`CertStore::from_native`].
pub struct OpenRequest {
    /// The native provider identifier, always the wide system store
    /// provider.
    pub provider_id: u32,
    /// The encoding word of the open call; the open of a system store
    /// leaves it at its default of zero.
    pub encoding: u32,
    /// The open flags: the location flags of the store type combined with
    /// the open-existing flag.
    pub flags: u32,
    /// The UTF-16 units of the store name, without a terminator.
    pub name: Vec<u16>,
}

/// Every parameter of one native PKCS#12 import call: the archive bytes
/// with their length as the native blob length word, the password in its
/// wide form, and a zero key-import flags word (no exportable keys, no
/// persistence: imported keys stay ephemeral). The application passes these
/// to the native import call and reports the outcome to
/// [`CertStore::from_native`].
pub struct Pkcs12Request {
    /// The archive bytes.
    pub data: Vec<u8>,
    /// The length of the archive bytes as the native blob length word.
    pub blob_len: u32,
    /// The UTF-16 units of the password, without a terminator; empty means
    /// "no password", which is a valid request.
    pub password: Vec<u16>,
    /// The key-import flags word, always zero.
    pub key_flags: u32,
}

/// One open native certificate store session.
///
/// A value owns exactly one non-null native store handle. The type has no
/// `Clone`, so the single native close owed for the handle can be performed
/// from exactly one place: whoever consumes the value through
/// [`close`](CertStore::close).
///
/// The value holds nothing but the handle word and never mutates it, so it
/// can move and be shared across threads; the native store object itself is
/// documented as supporting concurrent use.
pub struct CertStore {
    handle: usize,
}

impl View for CertStore {
    type V = usize;

    closed spec fn view(&self) -> usize {
        self.handle
    }
}

impl CertStore {
    /// A store is well formed when its native handle is non-null.
    pub open spec fn wf(self) -> bool {
        self@ != 0
    }

    /// Prepares the native call that opens an existing system store of the
    /// given type under the given name: fixes the provider, the flags word
    /// and the wide form of the name.
    pub fn open(store_type: CertStoreType, store_name: &str) -> (req: OpenRequest)
        requires
            !contains_nul(store_name@),
        ensures
            req.provider_id == CERT_STORE_PROV_SYSTEM_W_ID,
            req.encoding == 0,
            req.flags == (store_type.spec_as_flags() | CERT_STORE_OPEN_EXISTING_FLAG),
            req.name@ == utf16_of(store_name@),
    {
        OpenRequest {
            provider_id: CERT_STORE_PROV_SYSTEM_W_ID,
            encoding: 0,
            flags: store_type.as_flags() | CERT_STORE_OPEN_EXISTING_FLAG,
            name: utf16_units(store_name),
        }
    }

    /// Prepares the native call that imports a PKCS#12 archive into an
    /// in-memory store: fixes the blob length, the wide form of the
    /// password (an empty password is a valid "no password" request) and
    /// the zero key-import flags.
    pub fn from_pkcs12(data: Vec<u8>, password: &str) -> (req: Pkcs12Request)
        requires
            !contains_nul(password@),
            data@.len() <= u32::MAX,
        ensures
            req.data@ == data@,
            req.blob_len == data@.len(),
            req.password@ == utf16_of(password@),
            req.key_flags == 0,
    {
        let blob_len: u32 = data.len() as u32;
        Pkcs12Request { data, blob_len, password: utf16_units(password), key_flags: 0 }
    }

    /// Interprets the outcome of a native open or import call: a non-null
    /// handle becomes a store that owns it, and a failure code becomes the
    /// typed error that carries it — if and only if the call failed. A
    /// failed call never yields a handle.
    pub fn from_native(raw: Result<usize, i32>) -> (r: Result<CertStore, CngError>)
        requires
            raw is Ok ==> raw->Ok_0 != 0,
        ensures
            r is Ok <==> raw is Ok,
            raw is Ok ==> r->Ok_0@ == raw->Ok_0 && r->Ok_0.wf(),
            raw is Err ==> r->Err_0@ == raw->Err_0,
    {
        match raw {
            Ok(handle) => Ok(CertStore { handle }),
            Err(code) => Err(CngError::from_code(code)),
        }
    }

    /// The raw native store handle, for the search engine and for the
    /// store-bound operations of the certificate collaborator; not a
    /// general-purpose escape hatch.
    pub fn inner(&self) -> (h: usize)
        ensures
            h == self@,
    {
        self.handle
    }

    /// Surrenders the native handle so that the application can perform the
    /// single native close this value owes, with a zero flags word. Safe to
    /// call however the store was used — in particular after zero searches.
    /// Consuming the value makes the close the last act of its owner:
    /// exactly one close per opened or imported store.
    pub fn close(self) -> (h: usize)
        ensures
            h == self@,
    {
        self.handle
    }

    /// Starts a subject-substring search over this store: every certificate
    /// whose subject distinguished name contains the given text, in the
    /// order the store enumerates them.
    pub fn find_by_subject_str(&self, subject: &str) -> (s: FindSession)
        requires
            self.wf(),
            !contains_nul(subject@),
        ensures
            s@ == (FindModel {
                store: self@,
                find_type: CERT_FIND_SUBJECT_STR,
                text: utf16_of(subject@),
                cursor: 0,
                certs: Seq::<usize>::empty(),
                awaiting_dup: false,
                done: false,
            }),
            s@.wf(),
    {
        FindSession::start(self.handle, CERT_FIND_SUBJECT_STR, utf16_units(subject))
    }

    /// Starts an issuer-substring search over this store: every certificate
    /// whose issuer distinguished name contains the given text, in the
    /// order the store enumerates them.
    pub fn find_by_issuer_str(&self, issuer: &str) -> (s: FindSession)
        requires
            self.wf(),
            !contains_nul(issuer@),
        ensures
            s@ == (FindModel {
                store: self@,
                find_type: CERT_FIND_ISSUER_STR,
                text: utf16_of(issuer@),
                cursor: 0,
                certs: Seq::<usize>::empty(),
                awaiting_dup: false,
                done: false,
            }),
            s@.wf(),
    {
        FindSession::start(self.handle, CERT_FIND_ISSUER_STR, utf16_units(issuer))
    }
}

} // verus!
