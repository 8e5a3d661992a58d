use vstd::prelude::*;

use crate::model::config::InboundConfig;
use crate::model::settings::{AppState, GlobalSettings, StoredInbound};
use crate::model::copy::Duplicate;
use crate::model::ssl::CertInfo;
use crate::text::cat;

verus! {

/// Persists the application state as JSON in the state directory.
pub struct Storage {
    state_path: String,
}

impl Storage {
    /// The path of the state file.
    pub closed spec fn path(&self) -> Seq<char> {
        self.state_path@
    }

    /// The state file `state.json` in the settings' state directory.
    pub fn new(settings: &GlobalSettings) -> (r: Self)
        ensures
            r.path() == settings.state_dir@ + "/state.json"@,
    {
        Storage { state_path: cat(settings.state_dir.as_str(), "/state.json") }
    }

    pub fn state_path(&self) -> (r: &str)
        ensures
            r@ == self.path(),
    {
        self.state_path.as_str()
    }

    /// The state used when no state file exists yet: the given default
    /// settings, no inbounds, no certificates.
    pub fn empty_state(settings: GlobalSettings) -> (r: AppState)
        ensures
            r.settings == settings,
            r.stored_inbounds@.len() == 0,
            r.stored_certs@.len() == 0,
    {
        AppState { settings, stored_inbounds: Vec::new(), stored_certs: Vec::new() }
    }

    /// The state that is saved: the settings, a summary of each inbound, and
    /// the certificates.
    pub fn snapshot(settings: &GlobalSettings, inbounds: &[InboundConfig], certs: &[CertInfo]) -> (r: AppState)
        ensures
            r.settings == *settings,
            r.stored_inbounds@.len() == inbounds@.len(),
            forall|i: int| 0 <= i < inbounds@.len() ==> (#[trigger] r.stored_inbounds@[i]).summarizes(inbounds@[i]),
            r.stored_certs@ == certs@,
    {
        let mut stored: Vec<StoredInbound> = Vec::new();
        let mut i: usize = 0;
        while i < inbounds.len()
            invariant
                i <= inbounds@.len(),
                stored@.len() == i,
                forall|j: int| 0 <= j < i ==> (#[trigger] stored@[j]).summarizes(inbounds@[j]),
            decreases inbounds@.len() - i,
        {
            stored.push(StoredInbound::from_inbound(&inbounds[i]));
            i += 1;
        }
        let mut cs: Vec<CertInfo> = Vec::new();
        let mut k: usize = 0;
        while k < certs.len()
            invariant
                k <= certs@.len(),
                cs@.len() == k,
                cs@ == certs@.take(k as int),
            decreases certs@.len() - k,
        {
            cs.push(certs[k].duplicate());
            assert(cs@ =~= certs@.take(k + 1));
            k += 1;
        }
        assert(certs@.take(certs@.len() as int) =~= certs@);
        AppState { settings: settings.duplicate(), stored_inbounds: stored, stored_certs: cs }
    }
}

} // verus!
