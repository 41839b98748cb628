//! Home page state: core and helper status. Current profile and traffic
//! summary come from the Profiles and Connections states.

use vstd::prelude::*;

verus! {

/// Home page state.
#[derive(Debug)]
pub struct HomeState {
    pub core_state: Option<String>,
    pub core_pid: Option<u32>,
    pub core_version: Option<String>,
    pub helper_version: Option<String>,
    /// Whether TUN is working.
    pub tun_active: bool,
}

impl Default for HomeState {
    fn default() -> (r: Self)
        ensures
            r.core_state is None,
            r.core_pid is None,
            r.core_version is None,
            r.helper_version is None,
            !r.tun_active,
    {
        HomeState {
            core_state: None,
            core_pid: None,
            core_version: None,
            helper_version: None,
            tun_active: false,
        }
    }
}

impl HomeState {
    /// Records a core status report; the helper version is kept.
    pub fn apply_core_status(
        &mut self,
        state: String,
        pid: Option<u32>,
        version: Option<String>,
        tun_active: bool,
    )
        ensures
            final(self).core_state == Some(state),
            final(self).core_pid == pid,
            final(self).core_version == version,
            final(self).tun_active == tun_active,
            final(self).helper_version == old(self).helper_version,
    {
        self.core_state = Some(state);
        self.core_pid = pid;
        self.core_version = version;
        self.tun_active = tun_active;
    }

    /// Records the helper version; everything else is kept.
    pub fn apply_helper_version(&mut self, version: String)
        ensures
            final(self).helper_version == Some(version),
            final(self).core_state == old(self).core_state,
            final(self).core_pid == old(self).core_pid,
            final(self).core_version == old(self).core_version,
            final(self).tun_active == old(self).tun_active,
    {
        self.helper_version = Some(version);
    }
}

} // verus!
