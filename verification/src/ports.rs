//! Applying switch-port settings: the saga's fixed step order, the
//! conversion from the control plane's combined settings into the form the
//! data-plane daemon takes, and the undo decision.  Talking to the daemon
//! and to the rest of the control plane is the saga runner's work.

use vstd::prelude::*;

use crate::net::{IpAddr, IpNet};
use vstd::string::StringExecFns;

verus! {

/// Input parameters of the apply saga.  The authentication context the
/// saga was serialized with travels with the saga runner, outside this
/// record.
#[derive(Debug)]
pub struct Params {
    pub switch_port_id: u128,
    pub switch_port_settings_id: u128,
    pub switch_port_name: String,
}

/// The switch-port-settings apply saga.
#[derive(Debug)]
pub struct SagaSwitchPortSettingsApply;

impl SagaSwitchPortSettingsApply {
    /// The saga's name.
    pub fn name() -> (r: &'static str)
        ensures
            r@ == "switch-port-settings-apply"@,
    {
        "switch-port-settings-apply"
    }

    /// The saga's plan: the fixed order in which its steps run.  Each
    /// label names one step; the runner executes them in this order and
    /// unwinds in reverse.
    pub fn saga_step_order() -> (r: Vec<&'static str>)
        ensures
            r@.len() == 3,
            r@[0]@ == "associate_switch_port"@,
            r@[1]@ == "get_switch_port_settings"@,
            r@[2]@ == "ensure_switch_port_settings"@,
    {
        let mut steps: Vec<&'static str> = Vec::new();
        steps.push("associate_switch_port");
        steps.push("get_switch_port_settings");
        steps.push("ensure_switch_port_settings");
        steps
    }
}

/// One address configured on a switch port.
#[derive(Clone, Copy, Debug, PartialEq, Eq, Structural)]
pub struct SwitchPortAddressConfig {
    pub address: IpNet,
}

/// One route configured on a switch port: a destination network and the
/// gateway it goes through.
#[derive(Clone, Copy, Debug, PartialEq, Eq, Structural)]
pub struct SwitchPortRouteConfig {
    pub dst: IpNet,
    pub gw: IpNet,
}

/// The combined settings stored for one switch port.
#[derive(Debug)]
pub struct SwitchPortSettingsCombinedResult {
    pub addresses: Vec<SwitchPortAddressConfig>,
    pub routes: Vec<SwitchPortRouteConfig>,
}

/// One route in the form the data-plane daemon takes.
#[derive(Debug)]
pub struct DpdRoute {
    pub cidr: IpNet,
    pub link: u64,
    pub switch_port: String,
    pub nexthop: Option<IpAddr>,
}

/// Port settings in the form the data-plane daemon takes: one link, its
/// addresses, its routes, and the tag the control plane stamps on them.
#[derive(Debug)]
pub struct PortSettings {
    pub link: u64,
    pub addrs: Vec<IpAddr>,
    pub routes: Vec<DpdRoute>,
    pub tag: String,
}

/// Converts stored switch-port settings into the data-plane daemon's form:
/// every configured address contributes its address, and every route is
/// carried over onto the port's one link with the gateway's address as the
/// next hop.
pub fn api_to_dpd_port_settings(
    port_id: &String,
    settings: &SwitchPortSettingsCombinedResult,
) -> (r: PortSettings)
    ensures
        r.link == 0,
        r.tag@ == "nexus"@,
        r.addrs@ == settings.addresses@.map_values(
            |a: SwitchPortAddressConfig| a.address.ip_spec(),
        ),
        r.routes@.len() == settings.routes@.len(),
        forall|i: int|
            0 <= i < settings.routes@.len() ==> {
                let rt = settings.routes@[i];
                let d = #[trigger] r.routes@[i];
                &&& d.cidr == rt.dst
                &&& d.link == 0
                &&& d.switch_port@ == port_id@
                &&& d.nexthop == Some(rt.gw.ip_spec())
            },
{
    let mut addrs: Vec<IpAddr> = Vec::new();
    let an = settings.addresses.len();
    let mut i: usize = 0;
    proof {
        assert(settings.addresses@.subrange(0, 0).map_values(
            |a: SwitchPortAddressConfig| a.address.ip_spec(),
        ) =~= Seq::<IpAddr>::empty());
    }
    while i < an
        invariant
            an == settings.addresses@.len(),
            i <= an,
            addrs@ == settings.addresses@.subrange(0, i as int).map_values(
                |a: SwitchPortAddressConfig| a.address.ip_spec(),
            ),
        decreases an - i,
    {
        let ghost pre = settings.addresses@.subrange(0, i as int);
        let ghost post = settings.addresses@.subrange(0, i + 1);
        addrs.push(settings.addresses[i].address.ip());
        proof {
            assert(post.drop_last() =~= pre);
            assert(post.map_values(|a: SwitchPortAddressConfig| a.address.ip_spec())
                =~= pre.map_values(|a: SwitchPortAddressConfig| a.address.ip_spec()).push(
                post.last().address.ip_spec(),
            ));
        }
        i = i + 1;
    }
    proof {
        assert(settings.addresses@.subrange(0, an as int) =~= settings.addresses@);
    }
    let mut routes: Vec<DpdRoute> = Vec::new();
    let rn = settings.routes.len();
    let mut j: usize = 0;
    while j < rn
        invariant
            rn == settings.routes@.len(),
            j <= rn,
            routes@.len() == j,
            forall|k: int|
                0 <= k < j ==> {
                    let rt = settings.routes@[k];
                    let d = #[trigger] routes@[k];
                    &&& d.cidr == rt.dst
                    &&& d.link == 0
                    &&& d.switch_port@ == port_id@
                    &&& d.nexthop == Some(rt.gw.ip_spec())
                },
        decreases rn - j,
    {
        let rt = &settings.routes[j];
        routes.push(
            DpdRoute {
                cidr: rt.dst,
                link: 0,
                switch_port: port_id.clone(),
                nexthop: Some(rt.gw.ip()),
            },
        );
        j = j + 1;
    }
    PortSettings { link: 0, addrs, routes, tag: String::from_str("nexus") }
}

/// What unwinding the ensure step must do: clear the port if no settings
/// were associated with it before the saga ran, and otherwise re-apply the
/// settings that were.
#[derive(Clone, Copy, Debug, PartialEq, Eq, Structural)]
pub enum PortRestoreStep {
    ClearPort,
    Reapply(u128),
}

/// Decides the unwind action from the association the saga displaced.
pub fn undo_port_settings_step(original: Option<u128>) -> (r: PortRestoreStep)
    ensures
        original is None ==> r == PortRestoreStep::ClearPort,
        (original matches Some(id) ==> r == PortRestoreStep::Reapply(id)),
{
    match original {
        None => PortRestoreStep::ClearPort,
        Some(id) => PortRestoreStep::Reapply(id),
    }
}

} // verus!
