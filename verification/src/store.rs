//! The persistence store: a base data directory resolved once at
//! construction, and load/save decisions keyed by filename.
//!
//! The store itself performs no file I/O: a caller reads the file's full
//! content and hands the bytes to a load decision, or takes the bytes a
//! save decision produced and writes them as the file's entire new
//! content (truncate and rewrite, last writer wins).

use vstd::prelude::*;
use vstd::string::StrSliceExecFns;
use vstd::string::StringExecFns;

use crate::codec::Codec;
use crate::errors::StoreError;

verus! {

/// A persistence store rooted at a per-application data directory.
///
/// The base path is resolved once at construction and immutable
/// thereafter; every filename denotes exactly one file directly under it.
pub struct Serder {
    base: String,
}

impl View for Serder {
    type V = Seq<char>;

    /// A store is abstractly its base directory path.
    closed spec fn view(&self) -> Seq<char> {
        self.base@
    }
}

/// A filename the store accepts: non-empty, free of path separators, and
/// not the current- or parent-directory name, so that it denotes exactly
/// one file directly under the base directory and cannot traverse out of
/// it.
pub open spec fn valid_filename(f: Seq<char>) -> bool {
    &&& f.len() > 0
    &&& (forall|i: int| 0 <= i < f.len() ==> f[i] != '/' && f[i] != '\\')
    &&& f != seq!['.']
    &&& f != seq!['.', '.']
}

/// Decides [`valid_filename`] for a concrete filename.
pub fn check_filename(filename: &str) -> (r: bool)
    ensures
        r == valid_filename(filename@),
{
    let n = filename.unicode_len();
    if n == 0 {
        return false;
    }
    let mut i: usize = 0;
    while i < n
        invariant
            n == filename@.len(),
            i <= n,
            forall|j: int| 0 <= j < i ==> filename@[j] != '/' && filename@[j] != '\\',
        decreases n - i,
    {
        let c = filename.get_char(i);
        if c == '/' || c == '\\' {
            return false;
        }
        i += 1;
    }
    if n == 1 && filename.get_char(0) == '.' {
        proof {
            assert(filename@ =~= seq!['.']);
        }
        return false;
    }
    if n == 2 && filename.get_char(0) == '.' && filename.get_char(1) == '.' {
        proof {
            assert(filename@ =~= seq!['.', '.']);
        }
        return false;
    }
    proof {
        assert(filename@ != seq!['.']) by {
            if filename@ == seq!['.'] {
                assert(filename@.len() == 1);
                assert(filename@[0] == '.');
            }
        }
        assert(filename@ != seq!['.', '.']) by {
            if filename@ == seq!['.', '.'] {
                assert(filename@.len() == 2);
                assert(filename@[0] == '.');
                assert(filename@[1] == '.');
            }
        }
    }
    true
}

/// Relies on `directories::ProjectDirs::from` with empty qualifier and
/// organization, and `ProjectDirs::data_dir`: the platform data directory
/// for the package, an absolute (hence non-empty) path. The result depends
/// on the host environment, so nothing more is stated of it.
#[verifier::external_body]
fn resolve_data_dir(package_name: &str) -> (r: Option<String>)
    ensures
        r matches Some(p) ==> p@.len() > 0,
{
    directories::ProjectDirs::from("", "", package_name)
        .and_then(|d| d.data_dir().to_str().map(|s| s.to_owned()))
}

/// What a lenient load yields from file content `bytes`: the fallback for
/// an empty file (never written), the decoded value for a valid encoding,
/// and the fallback again where decoding fails — corruption is swallowed.
pub open spec fn lenient_load<T: View, C: Codec<T>>(bytes: Seq<u8>, fallback: T::V) -> T::V {
    if bytes.len() == 0 {
        fallback
    } else {
        match C::dec(bytes) {
            Some(v) => v,
            None => fallback,
        }
    }
}

/// What a strict load yields from file content `bytes`: an empty-file
/// error for a zero-length file, a decode error for bytes that are not a
/// valid encoding, and the decoded value otherwise.
pub open spec fn strict_load<T: View, C: Codec<T>>(bytes: Seq<u8>) -> Result<T::V, StoreError> {
    if bytes.len() == 0 {
        Err(StoreError::EmptyFile)
    } else {
        match C::dec(bytes) {
            Some(v) => Ok(v),
            None => Err(StoreError::Decode),
        }
    }
}

impl Serder {
    /// The store is well formed when its base directory path is non-empty.
    pub open spec fn wf(&self) -> bool {
        self@.len() > 0
    }

    /// Resolves the per-application data directory for `package_name` and
    /// roots a store there. Fails exactly when no data directory can be
    /// determined on this host. Creating the directory on disk is the
    /// caller's step, before any file is opened under it.
    pub fn new(package_name: String) -> (r: Result<Serder, StoreError>)
        ensures
            r matches Ok(s) ==> s.wf(),
            r matches Err(e) ==> e == StoreError::DirectoryResolution,
    {
        match resolve_data_dir(package_name.as_str()) {
            Some(base) => Ok(Serder { base }),
            None => Err(StoreError::DirectoryResolution),
        }
    }

    /// Roots a store at an already-resolved base directory.
    pub fn from_base_dir(base: String) -> (s: Serder)
        requires
            base@.len() > 0,
        ensures
            s@ == base@,
            s.wf(),
    {
        Serder { base }
    }

    /// The base directory the store was rooted at.
    pub fn base_dir(&self) -> (r: &str)
        ensures
            r@ == self@,
    {
        self.base.as_str()
    }

    /// The path of `filename` directly under the base directory: the base
    /// path, a separator, then the filename. Filenames the store does not
    /// accept yield nothing.
    pub fn file_path(&self, filename: &str) -> (r: Option<String>)
        ensures
            valid_filename(filename@) ==> (r matches Some(p) && p@ == self@ + seq!['/']
                + filename@),
            !valid_filename(filename@) ==> r is None,
    {
        if !check_filename(filename) {
            return None;
        }
        let mut p = String::from_str(self.base.as_str());
        p.append("/");
        p.append(filename);
        proof {
            reveal_strlit("/");
            assert("/"@ =~= seq!['/']);
        }
        Some(p)
    }

    /// The lenient load with the type's default as fallback: empty or
    /// corrupt file content yields the default value, never an error.
    pub fn deserialize_or_default<T: View + Default, C: Codec<T>>(
        &self,
        codec: &C,
        bytes: &[u8],
    ) -> (r: T)
        ensures
            bytes@.len() != 0 && C::dec(bytes@) is Some ==> r@ == C::dec(bytes@)->Some_0,
            bytes@.len() == 0 || C::dec(bytes@) is None ==> call_ensures(T::default, (), r),
    {
        if bytes.len() == 0 {
            T::default()
        } else {
            match codec.decode(bytes) {
                Ok(v) => v,
                Err(_) => T::default(),
            }
        }
    }

    /// The lenient load with a caller-supplied fallback: empty or corrupt
    /// file content yields the fallback, never an error.
    pub fn deserialize_or_value<T: View, C: Codec<T>>(
        &self,
        codec: &C,
        bytes: &[u8],
        value: T,
    ) -> (r: T)
        ensures
            r@ == lenient_load::<T, C>(bytes@, value@),
    {
        if bytes.len() == 0 {
            value
        } else {
            match codec.decode(bytes) {
                Ok(v) => v,
                Err(_) => value,
            }
        }
    }

    /// The strict load: a zero-length file fails with the empty-file
    /// error, content that is not a valid encoding fails with a decode
    /// error, and a valid encoding yields its value.
    pub fn deserialize_or_err<T: View, C: Codec<T>>(&self, codec: &C, bytes: &[u8]) -> (r: Result<
        T,
        StoreError,
    >)
        ensures
            match r {
                Ok(v) => strict_load::<T, C>(bytes@) == Ok::<T::V, StoreError>(v@),
                Err(e) => strict_load::<T, C>(bytes@) == Err::<T::V, StoreError>(e),
            },
    {
        if bytes.len() == 0 {
            Err(StoreError::EmptyFile)
        } else {
            match codec.decode(bytes) {
                Ok(v) => Ok(v),
                Err(e) => Err(e),
            }
        }
    }

    /// The save decision for an owned value: the bytes that must become
    /// the file's entire new content. It succeeds exactly on the values
    /// the codec accepts — so a value that saved once saves again — and
    /// the bytes are a function of the value, non-empty, and decode back
    /// to the value; a failure is always the codec rejecting the value.
    pub fn serialize_and_save<T: View, C: Codec<T>>(&self, codec: &C, data: T) -> (r: Result<
        Vec<u8>,
        StoreError,
    >)
        ensures
            r is Ok <==> C::enc_ok(data@),
            r matches Ok(b) ==> b@ == C::enc(data@) && b@.len() > 0 && C::dec(b@) == Some(data@),
            r matches Err(e) ==> e == StoreError::Encode,
    {
        codec.encode(&data)
    }

    /// The save decision for a value behind a shared, immutable,
    /// reference-counted handle: reads through the handle without taking
    /// the value out, and behaves exactly as the owned save of the same
    /// value — the same bytes, and success under the same condition.
    pub fn serialize_arc_and_save<T: View, C: Codec<T>>(
        &self,
        codec: &C,
        data: std::sync::Arc<T>,
    ) -> (r: Result<Vec<u8>, StoreError>)
        ensures
            r is Ok <==> C::enc_ok(data@),
            r matches Ok(b) ==> b@ == C::enc(data@) && b@.len() > 0 && C::dec(b@) == Some(data@),
            r matches Err(e) ==> e == StoreError::Encode,
    {
        codec.encode(&*data)
    }
}

/// An empty file — one never written — loads leniently as exactly the
/// fallback.
pub proof fn lemma_lenient_load_empty<T: View, C: Codec<T>>(fallback: T::V)
    ensures
        lenient_load::<T, C>(Seq::<u8>::empty(), fallback) == fallback,
{
}

/// Corruption is swallowed by the lenient load: where non-empty bytes are
/// not a valid encoding, the fallback comes back, never an error.
pub proof fn lemma_lenient_load_corrupt<T: View, C: Codec<T>>(bytes: Seq<u8>, fallback: T::V)
    requires
        C::dec(bytes) is None,
    ensures
        lenient_load::<T, C>(bytes, fallback) == fallback,
{
}

/// The strict load surfaces corruption: non-empty bytes that are not a
/// valid encoding fail with a decode error.
pub proof fn lemma_strict_load_corrupt<T: View, C: Codec<T>>(bytes: Seq<u8>)
    requires
        bytes.len() > 0,
        C::dec(bytes) is None,
    ensures
        strict_load::<T, C>(bytes) == Err::<T::V, StoreError>(StoreError::Decode),
{
}

/// The strict load of a zero-length file fails with the empty-file error,
/// distinguishable from a decode failure.
pub proof fn lemma_strict_load_empty<T: View, C: Codec<T>>()
    ensures
        strict_load::<T, C>(Seq::<u8>::empty()) == Err::<T::V, StoreError>(StoreError::EmptyFile),
{
}

/// Saving is idempotent: the bytes written for a value are a function of
/// the value alone, so a second save of the same value leaves the file
/// content bit-for-bit identical to a single save.
pub proof fn lemma_save_idempotent<T: View, C: Codec<T>>(v: T::V, b1: Seq<u8>, b2: Seq<u8>)
    requires
        b1 == C::enc(v),
        b2 == C::enc(v),
    ensures
        b1 == b2,
{
}

/// Round trip through the store: a save writes non-empty bytes that
/// decode back to the saved value, so a strict load of the saved file
/// returns exactly that value.
pub proof fn lemma_store_round_trip<T: View, C: Codec<T>>(v: T::V, b: Seq<u8>)
    requires
        b.len() > 0,
        C::dec(b) == Some(v),
    ensures
        strict_load::<T, C>(b) == Ok::<T::V, StoreError>(v),
{
}

} // verus!
