//! The native-library model.
//!
//! A loaded library appears here as its loader handle together with the
//! addresses that symbol resolution produced for the fixed export-name set a
//! backend consumes.  The embedding code opens the library and resolves the
//! names once, at backend construction; from then on every lookup this module
//! answers is a verified search of that table.  An address of `0` records
//! that the loader had no such export — a legitimate state for optional
//! entries, surfaced only when the capability needing the export is invoked.

use vstd::prelude::*;
use vstd::string::*;

use crate::common::method::MethodPointer;
use crate::utils::strings::str_eq;

verus! {

/// A failure of the native-library loader.
#[derive(Debug, Clone, PartialEq, Eq)]
pub enum LibError {
    /// The platform loader could not open the library file; carries the
    /// loader's diagnostic text.
    LoadFailed(String),
    /// The named export is absent from the library.
    SymbolNotFound(String),
}

/// Spec-level image of [`LibError`], with text as character sequences.
pub enum LibErrorView {
    LoadFailed(Seq<char>),
    SymbolNotFound(Seq<char>),
}

impl View for LibError {
    type V = LibErrorView;

    open spec fn view(&self) -> LibErrorView {
        match self {
            LibError::LoadFailed(s) => LibErrorView::LoadFailed(s@),
            LibError::SymbolNotFound(s) => LibErrorView::SymbolNotFound(s@),
        }
    }
}

impl LibError {
    /// The diagnostic text of this failure.
    pub open spec fn spec_message(self) -> Seq<char> {
        match self {
            LibError::LoadFailed(s) => s@,
            LibError::SymbolNotFound(s) => "Symbol '"@ + s@ + "' not found"@,
        }
    }

    /// The diagnostic text of this failure.
    pub fn message(&self) -> (r: String)
        ensures
            r@ == self.spec_message(),
    {
        match self {
            LibError::LoadFailed(s) => s.clone(),
            LibError::SymbolNotFound(s) => {
                let mut m = String::from_str("Symbol '");
                m.append(s.as_str());
                m.append("' not found");
                m
            },
        }
    }
}

/// One resolved export: a symbol name and the address the loader returned
/// for it, `0` when the library has no such export.
#[derive(Debug, Clone)]
pub struct SymbolEntry {
    pub name: String,
    pub addr: usize,
}

/// The address recorded for `name`: the first entry under that name, and
/// `None` when there is no entry or the loader returned null.
pub open spec fn spec_lookup(entries: Seq<SymbolEntry>, name: Seq<char>) -> Option<usize>
    decreases entries.len(),
{
    if entries.len() == 0 {
        None
    } else if entries[0].name@ == name {
        if entries[0].addr != 0 {
            Some(entries[0].addr)
        } else {
            None
        }
    } else {
        spec_lookup(entries.drop_first(), name)
    }
}

/// A recorded address is never null: `spec_lookup` answers `None` for an
/// entry the loader returned null for.
pub proof fn lemma_lookup_nonnull(entries: Seq<SymbolEntry>, name: Seq<char>)
    ensures
        spec_lookup(entries, name) matches Some(a) ==> a != 0,
    decreases entries.len(),
{
    if entries.len() > 0 {
        lemma_lookup_nonnull(entries.drop_first(), name);
    }
}

/// A loaded native library: the opaque handle the platform loader returned,
/// and the resolved addresses of the export names a backend consumes.
///
/// The handle is process-lifetime-scoped — the library is never unloaded,
/// since its code may be executing on another thread — and the table never
/// changes once built, so sharing the value read-only across threads is safe.
#[derive(Debug, Clone)]
pub struct NativeLibrary {
    pub handle: usize,
    pub symbols: Vec<SymbolEntry>,
}

impl NativeLibrary {
    /// The address this library records for `name`.
    pub open spec fn spec_sym(self, name: Seq<char>) -> Option<usize> {
        spec_lookup(self.symbols@, name)
    }

    /// The same lookup wrapped as a callable address.
    pub open spec fn spec_opt_sym(self, name: Seq<char>) -> Option<MethodPointer> {
        match self.spec_sym(name) {
            Some(a) => Some(MethodPointer { inner: a }),
            None => None,
        }
    }

    /// Looks up the named export among the resolved symbols.
    ///
    /// The returned address is bound to whatever call signature the caller
    /// chooses; no signature verification exists at this boundary, so a
    /// mismatch is the caller's responsibility.
    pub fn sym(&self, name: &str) -> (r: Result<MethodPointer, LibError>)
        ensures
            match r {
                Ok(p) => self.spec_sym(name@) == Some(p.inner) && p.inner != 0,
                Err(e) => self.spec_sym(name@) is None && e@ == LibErrorView::SymbolNotFound(
                    name@,
                ),
            },
    {
        let n: usize = self.symbols.len();
        let mut i: usize = 0;
        proof {
            assert(self.symbols@.skip(0) =~= self.symbols@);
        }
        while i < n
            invariant
                i <= n,
                n == self.symbols@.len(),
                spec_lookup(self.symbols@, name@) == spec_lookup(
                    self.symbols@.skip(i as int),
                    name@,
                ),
            decreases n - i,
        {
            let entry = &self.symbols[i];
            proof {
                assert(self.symbols@.skip(i as int)[0] == self.symbols@[i as int]);
            }
            if str_eq(entry.name.as_str(), name) {
                if entry.addr != 0 {
                    return Ok(MethodPointer { inner: entry.addr });
                } else {
                    return Err(LibError::SymbolNotFound(String::from_str(name)));
                }
            }
            proof {
                assert(self.symbols@.skip(i as int).drop_first() =~= self.symbols@.skip(
                    i as int + 1,
                ));
            }
            i = i + 1;
        }
        proof {
            assert(self.symbols@.skip(n as int) =~= Seq::<SymbolEntry>::empty());
        }
        Err(LibError::SymbolNotFound(String::from_str(name)))
    }

    /// The same lookup with an absent export as `None`, for populating the
    /// optional entries of an export table.
    pub fn opt_sym(&self, name: &str) -> (r: Option<MethodPointer>)
        ensures
            r == self.spec_opt_sym(name@),
    {
        match self.sym(name) {
            Ok(p) => Some(p),
            Err(_) => None,
        }
    }
}

} // verus!
