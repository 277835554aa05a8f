//! Tests of the service-manager decisions, the switch-port settings saga
//! pieces, and the terminal runner's event routing.

use omicron_core::metrics::{Metric, Producer, Sample, VirtualResourceProvisioning};
use omicron_core::net::{IpAddr, IpNet, SocketAddrV6};
use omicron_core::ports::{
    api_to_dpd_port_settings, undo_port_settings_step, PortRestoreStep,
    SagaSwitchPortSettingsApply, SwitchPortAddressConfig, SwitchPortRouteConfig,
    SwitchPortSettingsCombinedResult,
};
use omicron_core::services::{
    parse_sim_mode, plan_service_initialization, same_service_config, services_config_path,
    Error as ServicesError, ServiceRequest, SimMode, ZoneInfo,
};
use omicron_core::ui::{
    classify_term_event, handle_action_step, is_control_c, route_event, Action, ActionStep, Cmd,
    Event, EventStep, IgnitionCommand, KeyCode, KeyEvent, KeyModifiers, TermEvent,
};

fn addr(port: u16) -> SocketAddrV6 {
    SocketAddrV6 { ip: 1, port }
}

fn request(name: &str, port: u16) -> ServiceRequest {
    ServiceRequest { name: name.to_string(), address: addr(port) }
}

fn zone(name: &str, port: u16) -> ZoneInfo {
    ZoneInfo { name: name.to_string(), address: addr(port) }
}

#[test]
fn plan_skips_running_and_installs_new() {
    let existing = vec![zone("nexus", 80)];
    let services = vec![request("nexus", 80), request("oximeter", 81)];
    let plan = plan_service_initialization(&existing, &services).unwrap();
    assert_eq!(plan.len(), 1);
    assert_eq!(plan[0].name, "oximeter");
}

#[test]
fn plan_refuses_colliding_request() {
    let existing = vec![zone("nexus", 80)];
    let services = vec![request("nexus", 8080)];
    let err = plan_service_initialization(&existing, &services).unwrap_err();
    assert!(matches!(err, ServicesError::ServicesAlreadyConfigured));

    let services = vec![request("oximeter", 80)];
    let err = plan_service_initialization(&existing, &services).unwrap_err();
    assert!(matches!(err, ServicesError::ServicesAlreadyConfigured));
}

#[test]
fn service_config_comparison_ignores_order() {
    let known = vec![request("a", 1), request("b", 2)];
    let requested = vec![request("b", 2), request("a", 1)];
    assert!(same_service_config(&known, &requested));
    let different = vec![request("a", 1), request("b", 3)];
    assert!(!same_service_config(&known, &different));
    assert!(!same_service_config(&known, &vec![request("a", 1)]));
}

#[test]
fn config_path_is_fixed() {
    assert_eq!(services_config_path(), "/var/oxide/services.toml");
}

#[test]
fn sim_mode_parses_both_spellings() {
    assert_eq!(parse_sim_mode("auto"), Ok(SimMode::Auto));
    assert_eq!(parse_sim_mode("explicit"), Ok(SimMode::Explicit));
    assert_eq!(parse_sim_mode("banana"), Err("Invalid sim mode: banana".to_string()));
}

#[test]
fn saga_identity_and_step_order() {
    assert_eq!(SagaSwitchPortSettingsApply::name(), "switch-port-settings-apply");
    let steps = SagaSwitchPortSettingsApply::saga_step_order();
    assert_eq!(
        steps,
        vec!["associate_switch_port", "get_switch_port_settings", "ensure_switch_port_settings"]
    );
}

#[test]
fn port_settings_conversion_is_exact() {
    let settings = SwitchPortSettingsCombinedResult {
        addresses: vec![
            SwitchPortAddressConfig { address: IpNet::V4 { addr: 0x0a000001, prefix: 24 } },
            SwitchPortAddressConfig { address: IpNet::V6 { addr: 0xfd00, prefix: 64 } },
        ],
        routes: vec![SwitchPortRouteConfig {
            dst: IpNet::V4 { addr: 0, prefix: 0 },
            gw: IpNet::V4 { addr: 0x0a0000fe, prefix: 24 },
        }],
    };
    let port_id = "qsfp0".to_string();
    let dpd = api_to_dpd_port_settings(&port_id, &settings);
    assert_eq!(dpd.link, 0);
    assert_eq!(dpd.tag, "nexus");
    assert_eq!(dpd.addrs, vec![IpAddr::V4(0x0a000001), IpAddr::V6(0xfd00)]);
    assert_eq!(dpd.routes.len(), 1);
    assert_eq!(dpd.routes[0].cidr, IpNet::V4 { addr: 0, prefix: 0 });
    assert_eq!(dpd.routes[0].switch_port, "qsfp0");
    assert_eq!(dpd.routes[0].nexthop, Some(IpAddr::V4(0x0a0000fe)));
}

#[test]
fn undo_step_restores_or_clears() {
    assert_eq!(undo_port_settings_step(None), PortRestoreStep::ClearPort);
    assert_eq!(undo_port_settings_step(Some(9)), PortRestoreStep::Reapply(9));
}

#[test]
fn control_c_is_detected() {
    assert!(is_control_c(&KeyEvent {
        code: KeyCode::Char('c'),
        modifiers: KeyModifiers::Control,
    }));
    assert!(!is_control_c(&KeyEvent {
        code: KeyCode::Char('c'),
        modifiers: KeyModifiers::Unmodified,
    }));
    assert!(!is_control_c(&KeyEvent {
        code: KeyCode::Char('x'),
        modifiers: KeyModifiers::Control,
    }));
}

#[test]
fn terminal_events_classify() {
    let ctrl_c = TermEvent::Key(KeyEvent {
        code: KeyCode::Char('c'),
        modifiers: KeyModifiers::Control,
    });
    assert_eq!(classify_term_event(&ctrl_c, None), Some(Event::Shutdown));

    let plain = TermEvent::Key(KeyEvent {
        code: KeyCode::Char('j'),
        modifiers: KeyModifiers::Unmodified,
    });
    assert_eq!(classify_term_event(&plain, Some(Cmd::Other)), Some(Event::Term(Cmd::Other)));
    assert_eq!(classify_term_event(&plain, None), None);

    let resize = TermEvent::Resize { width: 80, height: 24 };
    assert_eq!(
        classify_term_event(&resize, None),
        Some(Event::Resize { width: 80, height: 24 })
    );
    assert_eq!(classify_term_event(&TermEvent::Other, Some(Cmd::Tick)), None);
}

#[test]
fn events_route_to_their_steps() {
    assert_eq!(route_event(&Event::Tick), EventStep::AdvanceTickAndDispatch);
    assert_eq!(route_event(&Event::Term(Cmd::DumpSnapshot)), EventStep::DumpSnapshot);
    assert_eq!(route_event(&Event::Term(Cmd::Other)), EventStep::Dispatch(Cmd::Other));
    assert_eq!(
        route_event(&Event::Resize { width: 10, height: 4 }),
        EventStep::ResizeAndRedraw { width: 10, height: 4 }
    );
    assert_eq!(route_event(&Event::Inventory), EventStep::UpdateInventoryAndRedraw);
    assert_eq!(
        route_event(&Event::ArtifactsAndEventReports),
        EventStep::UpdateArtifactsAndRedraw
    );
    assert_eq!(route_event(&Event::Shutdown), EventStep::Shutdown);
}

#[test]
fn producer_buffers_and_drains_samples() {
    let usages = vec![VirtualResourceProvisioning {
        id: 7,
        virtual_disk_bytes_provisioned: 100,
        cpus_provisioned: 4,
        ram_provisioned: 2048,
    }];
    let mut producer = Producer::new();
    producer.append_disk_metrics(&usages);
    producer.append_cpu_metrics(&usages);
    let samples = producer.produce();
    assert_eq!(
        samples,
        vec![
            Sample { target_id: 7, metric: Metric::VirtualDiskSpaceProvisioned { bytes_used: 100 } },
            Sample { target_id: 7, metric: Metric::CpusProvisioned { cpus: 4 } },
            Sample { target_id: 7, metric: Metric::RamProvisioned { bytes: 2048 } },
        ]
    );
    assert!(producer.produce().is_empty());
}

#[test]
fn actions_map_to_runner_obligations() {
    assert_eq!(handle_action_step(None), ActionStep::Nothing);
    assert_eq!(handle_action_step(Some(Action::Redraw)), ActionStep::Redraw);
    assert_eq!(handle_action_step(Some(Action::Update(3))), ActionStep::SendStartUpdate(3));
    assert_eq!(
        handle_action_step(Some(Action::Ignition(5, IgnitionCommand::PowerOn))),
        ActionStep::SendIgnitionCommand(5, IgnitionCommand::PowerOn)
    );
}
