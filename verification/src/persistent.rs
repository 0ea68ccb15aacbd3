//! The state store: the last address successfully published for one target
//! hostname. The caller loads the state file (if any) and hands its content
//! in; the store decides whether the current address is new and, after a
//! successful provider update, hands back the exact content to write.

use vstd::prelude::*;

use crate::error::Error;

verus! {

use vstd::string::StrSliceExecFns;
use vstd::string::StringExecFns;

/// Characters that cannot appear in a hostname used as a state-file name:
/// path separators and the empty name are refused.
pub open spec fn valid_state_file_name(name: Seq<char>) -> bool {
    name.len() > 0 && forall|i: int| 0 <= i < name.len() ==> name[i] != '/' && name[i] != '\\'
}

/// Returns the hostname itself as the name of its state file, or
/// `FileNameError` when the hostname cannot serve as a file name.
pub fn state_file_name(hostname: &str) -> (r: Result<String, Error>)
    ensures
        r is Ok <==> valid_state_file_name(hostname@),
        r is Ok ==> r->Ok_0@ == hostname@,
        r is Err ==> r->Err_0@ == crate::error::ErrorView::FileNameError,
{
    let len = hostname.unicode_len();
    if len == 0 {
        return Err(Error::FileNameError);
    }
    let mut i: usize = 0;
    while i < len
        invariant
            len == hostname@.len(),
            0 <= i <= len,
            forall|j: int| 0 <= j < i ==> hostname@[j] != '/' && hostname@[j] != '\\',
        decreases len - i,
    {
        let c = hostname.get_char(i);
        if c == '/' || c == '\\' {
            return Err(Error::FileNameError);
        }
        i += 1;
    }
    Ok(String::from_str(hostname))
}

/// The per-hostname persisted state: the last address published for the
/// hostname, or nothing when no prior state exists. Absence is treated as
/// "changed". Mutated only after a successful provider update.
pub struct Persistance {
    hostname: String,
    stored: Option<String>,
}

impl Persistance {
    /// The hostname this store tracks.
    pub closed spec fn spec_hostname(&self) -> Seq<char> {
        self.hostname@
    }

    /// The last published address, if any prior state exists.
    pub closed spec fn spec_stored(&self) -> Option<Seq<char>> {
        match self.stored {
            Some(ref s) => Some(s@),
            None => None,
        }
    }

    /// Whether `current` counts as a change: true when no prior state exists
    /// or the stored address differs from `current`.
    pub open spec fn spec_changed(&self, current: Seq<char>) -> bool {
        match self.spec_stored() {
            Some(prev) => prev != current,
            None => true,
        }
    }

    /// Builds the store for `hostname` from the loaded state-file content:
    /// `None` when no state file exists.
    pub fn new(hostname: String, loaded: Option<String>) -> (r: Self)
        ensures
            r.spec_hostname() == hostname@,
            r.spec_stored() == match loaded {
                Some(s) => Some::<Seq<char>>(s@),
                None => None::<Seq<char>>,
            },
    {
        Persistance { hostname, stored: loaded }
    }

    /// True when no prior state exists, or the prior address differs from
    /// `current` character for character.
    pub fn ip_changed(&self, current: &str) -> (r: bool)
        ensures
            r == self.spec_changed(current@),
    {
        match &self.stored {
            Some(prev) => {
                let cur = String::from_str(current);
                !(*prev == cur)
            },
            None => true,
        }
    }

    /// Records `address` as the last published address and returns the exact
    /// content the state file must be overwritten with. Called only after a
    /// successful provider update.
    pub fn update(&mut self, address: String) -> (content: String)
        ensures
            final(self).spec_hostname() == old(self).spec_hostname(),
            final(self).spec_stored() == Some(address@),
            content@ == address@,
    {
        let content = address.clone();
        self.stored = Some(address);
        content
    }

    /// With no prior state, every address counts as changed.
    pub proof fn lemma_empty_state_always_changed(&self, current: Seq<char>)
        requires
            self.spec_stored() is None,
        ensures
            self.spec_changed(current),
    {
    }

    /// After recording an address, that same address no longer counts as a
    /// change, and every different address still does.
    pub proof fn lemma_after_update_changed_iff_differs(
        &self,
        address: Seq<char>,
        other: Seq<char>,
    )
        requires
            self.spec_stored() == Some(address),
        ensures
            !self.spec_changed(address),
            address != other ==> self.spec_changed(other),
    {
    }
}

} // verus!
