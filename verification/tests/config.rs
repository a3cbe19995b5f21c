use clash_verge::config::clash::IClashTemp;
use clash_verge::config::config::{Config, ConfigError, ConfigType, CHECK_CONFIG, RUNTIME_CONFIG};
use clash_verge::config::draft::Draft;
use clash_verge::config::moon::IMoon;
use clash_verge::config::profiles::{IProfiles, PrfItem};
use clash_verge::config::runtime::IRuntime;
use clash_verge::config::verge::IVerge;
use clash_verge::document::{Entry, Document, Scalar, Value};
use clash_verge::enhance::chain::{ChainBody, ChainKind, ChainRegistry, ChainUnit};
use clash_verge::enhance::engine::{run, EnhancementResult, RunError};
use clash_verge::enhance::tun::use_tun;

fn num(i: i64) -> Value {
    Value::Scalar(Scalar::Int(i))
}

fn map(entries: Vec<(&str, Value)>) -> Document {
    let mut m = Document::new();
    for (key, value) in entries {
        m.set(key.to_string(), value);
    }
    m
}

fn config_with(base: Document, tun: Option<bool>) -> Config {
    Config::new(
        IClashTemp(base),
        IVerge { enable_tun_mode: tun },
        IMoon::new(),
        IProfiles::new(),
        IRuntime::new(),
    )
}

fn outcome_of(base: Document) -> EnhancementResult {
    match run(Ok(base), ChainRegistry::new(), false).unwrap().finish() {
        Ok(result) => result,
        Err(_) => panic!("the run is not finished"),
    }
}

#[test]
fn a_draft_stays_apart_until_it_is_applied() {
    let mut d = Draft::new(1u32);
    assert_eq!(*d.data(), 1);
    assert_eq!(*d.latest(), 1);
    assert!(!d.has_draft());

    d.set_draft(2);
    assert!(d.has_draft());
    assert_eq!(*d.data(), 1);
    assert_eq!(*d.latest(), 2);

    assert_eq!(d.apply(), Some(1));
    assert!(!d.has_draft());
    assert_eq!(*d.data(), 2);
    assert_eq!(*d.latest(), 2);
    assert_eq!(d.apply(), None);
    assert_eq!(*d.data(), 2);
}

#[test]
fn a_discarded_draft_leaves_no_trace() {
    let mut d = Draft::new("old".to_string());
    d.set_draft("new".to_string());
    assert_eq!(d.discard(), Some("new".to_string()));
    assert_eq!(d.data(), "old");
    assert_eq!(d.latest(), "old");
    assert_eq!(d.discard(), None);
    assert_eq!(d.apply(), None);
    assert_eq!(d.data(), "old");
}

#[test]
fn the_applied_value_can_be_changed_in_place() {
    let mut d = Draft::new(5u8);
    d.set_draft(9);
    *d.data_mut() = 6;
    assert_eq!(*d.data(), 6);
    assert_eq!(*d.latest(), 9);
}

#[test]
fn the_parts_of_the_state_are_apart() {
    let mut config = config_with(map(vec![("mtu", num(1))]), Some(true));
    assert_eq!(config.clash().data().0, map(vec![("mtu", num(1))]));
    assert_eq!(config.verge().data().enable_tun_mode, Some(true));
    assert_eq!(config.moon().data().0, Document::new());
    assert_eq!(config.profiles().data().len(), 0);
    assert_eq!(config.runtime().data(), &IRuntime::new());

    config.verge().set_draft(IVerge { enable_tun_mode: Some(false) });
    config.moon().set_draft(IMoon(map(vec![("theme", num(2))])));
    assert_eq!(config.verge().latest().enable_tun_mode, Some(false));
    assert_eq!(config.verge().data().enable_tun_mode, Some(true));
    assert_eq!(config.moon().latest().0, map(vec![("theme", num(2))]));
    assert_eq!(config.clash().latest().0, map(vec![("mtu", num(1))]));
    assert!(!config.runtime().has_draft());
    assert!(!config.profiles().has_draft());
}

#[test]
fn unset_tunnel_mode_counts_as_off() {
    assert!(!IVerge::new().tun_mode());
    assert!(!IVerge { enable_tun_mode: Some(false) }.tun_mode());
    assert!(IVerge { enable_tun_mode: Some(true) }.tun_mode());
}

#[test]
fn the_built_in_profiles_are_provided_once() {
    let mut config = config_with(Document::new(), None);
    assert_eq!(config.init_config(), (true, true));
    {
        let profiles = config.profiles().data();
        assert_eq!(profiles.len(), 2);
        assert_eq!(
            profiles.get_item("Merge"),
            Some(&PrfItem { uid: "Merge".to_string(), itype: ChainKind::Merge }),
        );
        assert_eq!(
            profiles.get_item("Script"),
            Some(&PrfItem { uid: "Script".to_string(), itype: ChainKind::Script }),
        );
    }
    assert_eq!(config.init_config(), (false, false));
    assert_eq!(config.profiles().data().len(), 2);
}

#[test]
fn only_the_missing_built_in_profile_is_added() {
    let mut profiles = IProfiles::new();
    profiles.append_item(PrfItem::from_script("mine".to_string()));
    profiles.append_item(PrfItem::from_script("Script".to_string()));
    let mut config =
        Config::new(IClashTemp::new(), IVerge::new(), IMoon::new(), profiles, IRuntime::new());
    assert_eq!(config.init_config(), (true, false));
    let profiles = config.profiles().data();
    assert_eq!(profiles.len(), 3);
    assert_eq!(profiles.get_item("mine").unwrap().itype, ChainKind::Script);
    assert_eq!(profiles.get_item("Merge").unwrap().itype, ChainKind::Merge);
    assert!(profiles.get_item("merge").is_none());
}

#[test]
fn profile_entries_are_found_by_name() {
    let mut profiles = IProfiles::new();
    assert!(profiles.get_item("a").is_none());
    profiles.append_item(PrfItem::from_merge("a".to_string()));
    profiles.append_item(PrfItem::from_script("a".to_string()));
    assert_eq!(profiles.len(), 2);
    assert_eq!(profiles.get_item("a"), Some(&PrfItem::from_merge("a".to_string())));
    assert_eq!(profiles.item_at(0), &PrfItem::from_merge("a".to_string()));
    assert_eq!(profiles.item_at(1), &PrfItem::from_script("a".to_string()));
}

#[test]
fn a_run_starts_from_the_newest_base_and_switches() {
    let mut config = config_with(map(vec![("mtu", num(1))]), Some(false));
    config.clash().set_draft(IClashTemp(map(vec![("mtu", num(2))])));
    config.verge().set_draft(IVerge { enable_tun_mode: Some(true) });

    let mut registry = ChainRegistry::new();
    let unit = ChainUnit { name: "m".to_string(), body: ChainBody::Merge(map(vec![("x", num(3))])) };
    assert_eq!(registry.push(unit), Ok(()));

    let engine = config.enhance(registry).unwrap();
    let result = match engine.finish() {
        Ok(result) => result,
        Err(_) => panic!("the run is not finished"),
    };
    assert_eq!(result.config, use_tun(map(vec![("mtu", num(2)), ("x", num(3))]), true));
    // the state itself is as it was
    assert_eq!(config.clash().data().0, map(vec![("mtu", num(1))]));
    assert_eq!(config.clash().latest().0, map(vec![("mtu", num(2))]));
}

#[test]
fn a_run_over_an_invalid_base_does_not_start() {
    let twice = Document::from_entries(
        vec![
            Entry { key: "k".to_string(), value: num(1) },
            Entry { key: "k".to_string(), value: num(2) },
        ],
    );
    let config = config_with(twice, None);
    assert!(matches!(config.enhance(ChainRegistry::new()), Err(RunError::BaseInvalid)));
}

#[test]
fn the_outcome_of_a_run_becomes_the_draft() {
    let mut config = config_with(Document::new(), None);
    let result = outcome_of(map(vec![("a", num(1))]));
    let expected = IRuntime::of(outcome_of(map(vec![("a", num(1))])));

    assert_eq!(config.generate(Ok(result)), Ok(()));
    assert_eq!(config.runtime().data(), &IRuntime::new());
    assert_eq!(config.runtime().latest(), &expected);
    assert_eq!(expected.config, Some(use_tun(map(vec![("a", num(1))]), false)));
    assert_eq!(expected.exists_keys, vec!["tun", "dns"]);
    assert_eq!(expected.chain_logs.len(), 2);

    assert_eq!(config.runtime().apply(), Some(IRuntime::new()));
    assert_eq!(config.runtime().data(), &expected);
}

#[test]
fn a_failed_run_leaves_the_state_untouched() {
    let mut config = config_with(map(vec![("mtu", num(1))]), Some(true));
    assert_eq!(config.generate(Ok(outcome_of(map(vec![("a", num(1))])))), Ok(()));
    assert_eq!(config.runtime().apply(), Some(IRuntime::new()));
    assert_eq!(config.generate(Ok(outcome_of(map(vec![("b", num(2))])))), Ok(()));
    let applied = IRuntime::of(outcome_of(map(vec![("a", num(1))])));
    let drafted = IRuntime::of(outcome_of(map(vec![("b", num(2))])));

    let failure = run(Err("unreadable".to_string()), ChainRegistry::new(), true).map(|_| ());
    assert_eq!(failure, Err(RunError::BaseUnavailable("unreadable".to_string())));
    let r = config.generate(Err(RunError::BaseUnavailable("unreadable".to_string())));

    assert_eq!(r, Err(RunError::BaseUnavailable("unreadable".to_string())));
    assert_eq!(config.runtime().data(), &applied);
    assert_eq!(config.runtime().latest(), &drafted);
    assert_eq!(config.clash().latest().0, map(vec![("mtu", num(1))]));
    assert_eq!(config.verge().latest().enable_tun_mode, Some(true));
    assert_eq!(config.generate(Err(RunError::BaseInvalid)), Err(RunError::BaseInvalid));
    assert_eq!(config.runtime().latest(), &drafted);
}

#[test]
fn an_abandoned_run_is_discarded() {
    let mut config = config_with(Document::new(), None);
    assert_eq!(config.generate(Ok(outcome_of(map(vec![("a", num(1))])))), Ok(()));
    assert!(config.runtime().discard().is_some());
    assert_eq!(config.runtime().latest(), &IRuntime::new());
    assert_eq!(config.runtime().data(), &IRuntime::new());
}

#[test]
fn without_a_run_there_is_no_file_to_write() {
    let config = config_with(map(vec![("mtu", num(1))]), None);
    assert!(matches!(config.generate_file(ConfigType::Run), Err(ConfigError::NoRuntimeConfig)));
    assert!(matches!(config.generate_file(ConfigType::Check), Err(ConfigError::NoRuntimeConfig)));
}

#[test]
fn the_file_holds_the_newest_document() {
    let mut config = config_with(Document::new(), None);
    assert_eq!(config.generate(Ok(outcome_of(map(vec![("a", num(1))])))), Ok(()));
    let document = use_tun(map(vec![("a", num(1))]), false);

    let file = config.generate_file(ConfigType::Run).unwrap();
    assert_eq!(file.typ, ConfigType::Run);
    assert_eq!(file.name, "clash-verge.yaml");
    assert_eq!(file.name, RUNTIME_CONFIG);
    assert_eq!(file.header, "# Generated by Clash Verge");
    assert_eq!(file.config, &document);

    let file = config.generate_file(ConfigType::Check).unwrap();
    assert_eq!(file.typ, ConfigType::Check);
    assert_eq!(file.name, "clash-verge-check.yaml");
    assert_eq!(file.name, CHECK_CONFIG);
    assert_eq!(file.header, "# Generated by Clash Verge");
    assert_eq!(file.config, &document);
}

#[test]
fn the_default_file_holds_the_base_configuration() {
    let mut config = config_with(map(vec![("mtu", num(1))]), None);
    config.clash().set_draft(IClashTemp(map(vec![("mtu", num(2))])));
    let file = config.default_file();
    assert_eq!(file.typ, ConfigType::Run);
    assert_eq!(file.name, "clash-verge.yaml");
    assert_eq!(file.header, "# Clash Verge Runtime");
    assert_eq!(file.config, &map(vec![("mtu", num(2))]));
}
