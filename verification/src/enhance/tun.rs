use vstd::prelude::*;
use crate::document::{Document, Scalar, Value};
use crate::model::{
    Atom, Fields, Node, fields_wf, fields_within, lemma_lookup_wf, lemma_lookup_within,
    lemma_with_entry_within, lemma_with_entry_other, lemma_with_entry_same,
    lemma_with_entry_wf, lookup, with_entry,
};

verus! {

/// The mapping that `config` holds under `key`; the empty mapping where the
/// key is absent or holds anything but a mapping.
pub open spec fn section(config: Fields, key: Seq<char>) -> Fields {
    match lookup(config, key) {
        Some(Node::Mapping(m)) => m,
        _ => Seq::empty(),
    }
}

/// A truth value as a node.
pub open spec fn flag(b: bool) -> Node {
    Node::Scalar(Atom::Bool(b))
}

/// A `dns` section after it is normalised: `enable` and `ipv6` are on and
/// `enhanced-mode` is `redir-host`; every other setting stays.
pub open spec fn dns_forced(dns: Fields) -> Fields {
    with_entry(
        with_entry(with_entry(dns, "enable"@, flag(true)), "ipv6"@, flag(true)),
        "enhanced-mode"@,
        Node::Scalar(Atom::Str("redir-host"@)),
    )
}

/// A configuration after the tunnel device is switched to `enable`: the `tun`
/// section has `enable` set to the flag, and the `dns` section is normalised
/// whatever the flag is.
pub open spec fn tun_toggled(config: Fields, enable: bool) -> Fields {
    let tun = with_entry(section(config, "tun"@), "enable"@, flag(enable));
    let dns = dns_forced(section(config, "dns"@));
    with_entry(with_entry(config, "tun"@, Node::Mapping(tun)), "dns"@, Node::Mapping(dns))
}

/// A section of a well-formed configuration is well formed.
pub proof fn lemma_section_wf(config: Fields, key: Seq<char>)
    requires
        fields_wf(config),
    ensures
        fields_wf(section(config, key)),
{
    lemma_lookup_wf(config, key);
}

/// Switching the tunnel device keeps a configuration well formed.
pub proof fn lemma_tun_toggled_wf(config: Fields, enable: bool)
    requires
        fields_wf(config),
    ensures
        fields_wf(tun_toggled(config, enable)),
{
    lemma_section_wf(config, "tun"@);
    lemma_section_wf(config, "dns"@);
    let tun = with_entry(section(config, "tun"@), "enable"@, flag(enable));
    lemma_with_entry_wf(section(config, "tun"@), "enable"@, flag(enable));
    let d0 = section(config, "dns"@);
    let d1 = with_entry(d0, "enable"@, flag(true));
    let d2 = with_entry(d1, "ipv6"@, flag(true));
    let redir = Node::Scalar(Atom::Str("redir-host"@));
    lemma_with_entry_wf(d0, "enable"@, flag(true));
    lemma_with_entry_wf(d1, "ipv6"@, flag(true));
    lemma_with_entry_wf(d2, "enhanced-mode"@, redir);
    let c1 = with_entry(config, "tun"@, Node::Mapping(tun));
    lemma_with_entry_wf(config, "tun"@, Node::Mapping(tun));
    lemma_with_entry_wf(c1, "dns"@, Node::Mapping(dns_forced(d0)));
}

/// Switching the tunnel device keeps the nesting of a configuration bounded,
/// where the bound leaves room for a section.
pub proof fn lemma_tun_toggled_within(config: Fields, enable: bool, depth: nat)
    requires
        fields_within(config, depth),
        depth >= 2,
    ensures
        fields_within(tun_toggled(config, enable), depth),
{
    let inner = (depth - 1) as nat;
    lemma_lookup_within(config, "tun"@, depth);
    lemma_lookup_within(config, "dns"@, depth);
    let t0 = section(config, "tun"@);
    let d0 = section(config, "dns"@);
    let tun = with_entry(t0, "enable"@, flag(enable));
    lemma_with_entry_within(t0, "enable"@, flag(enable), inner);
    let d1 = with_entry(d0, "enable"@, flag(true));
    let d2 = with_entry(d1, "ipv6"@, flag(true));
    let redir = Node::Scalar(Atom::Str("redir-host"@));
    lemma_with_entry_within(d0, "enable"@, flag(true), inner);
    lemma_with_entry_within(d1, "ipv6"@, flag(true), inner);
    lemma_with_entry_within(d2, "enhanced-mode"@, redir, inner);
    let c1 = with_entry(config, "tun"@, Node::Mapping(tun));
    lemma_with_entry_within(config, "tun"@, Node::Mapping(tun), depth);
    lemma_with_entry_within(c1, "dns"@, Node::Mapping(dns_forced(d0)), depth);
}

/// A copy of the mapping under `key`, or an empty mapping.
fn section_of(config: &Document, key: &str) -> (r: Document)
    ensures
        r@ == section(config@, key@),
{
    match config.get(key) {
        Some(value) => match value.as_mapping() {
            Some(m) => m.clone(),
            None => Document::new(),
        },
        None => Document::new(),
    }
}

/// Switches the tunnel device of a configuration on or off.
///
/// The `tun` section gets `enable` set to the flag. The `dns` section gets
/// `enable` and `ipv6` switched on and `enhanced-mode` set to `redir-host`,
/// for either value of the flag. A section that is missing, or that is no
/// mapping, starts out empty; all other settings stay as they are.
pub fn use_tun(config: Document, enable: bool) -> (r: Document)
    ensures
        r@ == tun_toggled(config@, enable),
        config.wf() ==> r.wf(),
{
    proof {
        if config.wf() {
            lemma_tun_toggled_wf(config@, enable);
        }
    }
    let mut config = config;
    let mut tun_val = section_of(&config, "tun");
    let mut dns_val = section_of(&config, "dns");

    dns_val.set("enable".to_owned(), Value::Scalar(Scalar::Bool(true)));
    dns_val.set("ipv6".to_owned(), Value::Scalar(Scalar::Bool(true)));
    dns_val.set("enhanced-mode".to_owned(), Value::Scalar(Scalar::Str("redir-host".to_owned())));

    tun_val.set("enable".to_owned(), Value::Scalar(Scalar::Bool(enable)));
    config.set("tun".to_owned(), Value::Mapping(tun_val));
    config.set("dns".to_owned(), Value::Mapping(dns_val));
    config
}

/// The settings that a normalised `dns` section has.
pub open spec fn dns_normalised(dns: Fields) -> bool {
    &&& lookup(dns, "enable"@) == Some(flag(true))
    &&& lookup(dns, "ipv6"@) == Some(flag(true))
    &&& lookup(dns, "enhanced-mode"@) == Some(Node::Scalar(Atom::Str("redir-host"@)))
}

/// The names of the sections and settings that the toggle writes are distinct.
proof fn lemma_names_distinct()
    ensures
        "tun"@ != "dns"@,
        "enable"@ != "ipv6"@,
        "enable"@ != "enhanced-mode"@,
        "ipv6"@ != "enhanced-mode"@,
{
    reveal_strlit("tun");
    reveal_strlit("dns");
    reveal_strlit("enable");
    reveal_strlit("ipv6");
    reveal_strlit("enhanced-mode");
    assert("tun"@[0] != "dns"@[0]);
    assert("ipv6"@.len() != "enhanced-mode"@.len());
}

/// After the toggle, for either flag, the `tun` section has `enable` at the
/// flag and the `dns` section is normalised.
pub proof fn law_toggle_sections(config: Fields, enable: bool)
    ensures
        lookup(section(tun_toggled(config, enable), "tun"@), "enable"@) == Some(flag(enable)),
        dns_normalised(section(tun_toggled(config, enable), "dns"@)),
{
    lemma_names_distinct();
    let tun = with_entry(section(config, "tun"@), "enable"@, flag(enable));
    let d0 = section(config, "dns"@);
    let d1 = with_entry(d0, "enable"@, flag(true));
    let d2 = with_entry(d1, "ipv6"@, flag(true));
    let redir = Node::Scalar(Atom::Str("redir-host"@));
    let dns = with_entry(d2, "enhanced-mode"@, redir);
    let c1 = with_entry(config, "tun"@, Node::Mapping(tun));
    lemma_with_entry_same(c1, "dns"@, Node::Mapping(dns));
    lemma_with_entry_other(c1, "dns"@, Node::Mapping(dns), "tun"@);
    lemma_with_entry_same(config, "tun"@, Node::Mapping(tun));
    lemma_with_entry_same(section(config, "tun"@), "enable"@, flag(enable));
    lemma_with_entry_same(d0, "enable"@, flag(true));
    lemma_with_entry_other(d1, "ipv6"@, flag(true), "enable"@);
    lemma_with_entry_other(d2, "enhanced-mode"@, redir, "enable"@);
    lemma_with_entry_same(d1, "ipv6"@, flag(true));
    lemma_with_entry_other(d2, "enhanced-mode"@, redir, "ipv6"@);
    lemma_with_entry_same(d2, "enhanced-mode"@, redir);
}

/// The toggle normalises the `dns` section whatever the flag is: switched on
/// and switched off, the results have the same `dns` section and the same
/// value under every key but `tun`, and their `tun` sections agree on every
/// setting but `enable`.
pub proof fn law_dns_unconditional(config: Fields)
    ensures
        lookup(tun_toggled(config, true), "dns"@) == lookup(tun_toggled(config, false), "dns"@),
        dns_normalised(section(tun_toggled(config, true), "dns"@)),
        dns_normalised(section(tun_toggled(config, false), "dns"@)),
        forall|key: Seq<char>|
            key != "tun"@ ==> #[trigger] lookup(tun_toggled(config, true), key) == lookup(
                tun_toggled(config, false),
                key,
            ),
        forall|key: Seq<char>|
            key != "enable"@ ==> #[trigger] lookup(section(tun_toggled(config, true), "tun"@), key)
                == lookup(section(tun_toggled(config, false), "tun"@), key),
{
    lemma_names_distinct();
    law_toggle_sections(config, true);
    law_toggle_sections(config, false);
    let t0 = section(config, "tun"@);
    let on = with_entry(t0, "enable"@, flag(true));
    let off = with_entry(t0, "enable"@, flag(false));
    let dns = Node::Mapping(dns_forced(section(config, "dns"@)));
    let c_on = with_entry(config, "tun"@, Node::Mapping(on));
    let c_off = with_entry(config, "tun"@, Node::Mapping(off));
    lemma_with_entry_same(c_on, "dns"@, dns);
    lemma_with_entry_same(c_off, "dns"@, dns);
    assert forall|key: Seq<char>| key != "tun"@ implies #[trigger] lookup(
        tun_toggled(config, true),
        key,
    ) == lookup(tun_toggled(config, false), key) by {
        if key != "dns"@ {
            lemma_with_entry_other(c_on, "dns"@, dns, key);
            lemma_with_entry_other(c_off, "dns"@, dns, key);
            lemma_with_entry_other(config, "tun"@, Node::Mapping(on), key);
            lemma_with_entry_other(config, "tun"@, Node::Mapping(off), key);
        }
    }
    lemma_with_entry_other(c_on, "dns"@, dns, "tun"@);
    lemma_with_entry_other(c_off, "dns"@, dns, "tun"@);
    lemma_with_entry_same(config, "tun"@, Node::Mapping(on));
    lemma_with_entry_same(config, "tun"@, Node::Mapping(off));
    assert forall|key: Seq<char>| key != "enable"@ implies #[trigger] lookup(
        section(tun_toggled(config, true), "tun"@),
        key,
    ) == lookup(section(tun_toggled(config, false), "tun"@), key) by {
        lemma_with_entry_other(t0, "enable"@, flag(true), key);
        lemma_with_entry_other(t0, "enable"@, flag(false), key);
    }
}

} // verus!
