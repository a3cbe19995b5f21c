use vstd::prelude::*;
use crate::config::clash::IClashTemp;
use crate::config::draft::Draft;
use crate::config::moon::IMoon;
use crate::config::profiles::{IProfiles, ItemModel, PrfItem, has_uid};
use crate::config::runtime::IRuntime;
use crate::config::verge::IVerge;
use crate::document::Document;
use crate::enhance::chain::{ChainKind, ChainRegistry, document_valid};
use crate::enhance::engine::{Engine, EnhancementResult, RunError, run};
use crate::enhance::steps::{initial, settle};

verus! {

/// The name of the file that holds the configuration that is run.
pub const RUNTIME_CONFIG: &'static str = "clash-verge.yaml";

/// The name of the file that holds a configuration that is only checked.
pub const CHECK_CONFIG: &'static str = "clash-verge-check.yaml";

/// The purpose for which a configuration file is written.
#[derive(Debug, Clone, Copy, PartialEq, Eq, Structural)]
pub enum ConfigType {
    Run,
    Check,
}

/// Why no configuration file can be written.
#[derive(Debug, Clone, Copy, PartialEq, Eq, Structural)]
pub enum ConfigError {
    /// No run has left a document yet.
    NoRuntimeConfig,
}

/// A configuration file that is to be written: its name, the document that
/// goes into it, and the comment that stands above the document.
#[derive(Debug)]
pub struct ConfigFile<'a> {
    pub typ: ConfigType,
    pub name: &'static str,
    pub config: &'a Document,
    pub header: &'static str,
}

/// The profile entries with one of the given name and kind among them: it
/// is added at the end where no entry goes by the name.
pub open spec fn with_item(items: Seq<ItemModel>, uid: Seq<char>, itype: ChainKind) -> Seq<
    ItemModel,
> {
    if has_uid(items, uid) {
        items
    } else {
        items.push(ItemModel { uid, itype })
    }
}

/// The profile entries after the two built-in entries are provided: a merge
/// unit by the name of `Merge`, then a script unit by the name of `Script`.
pub open spec fn provisioned(items: Seq<ItemModel>) -> Seq<ItemModel> {
    with_item(with_item(items, "Merge"@, ChainKind::Merge), "Script"@, ChainKind::Script)
}

/// After the built-in entries are provided the profile store holds both,
/// and all it held before; to provide them once more changes nothing.
pub proof fn law_provisioned(items: Seq<ItemModel>)
    ensures
        has_uid(provisioned(items), "Merge"@),
        has_uid(provisioned(items), "Script"@),
        items.is_prefix_of(provisioned(items)),
        provisioned(provisioned(items)) == provisioned(items),
{
    let first = with_item(items, "Merge"@, ChainKind::Merge);
    let second = provisioned(items);
    if !has_uid(items, "Merge"@) {
        assert(first[first.len() - 1].uid == "Merge"@);
    }
    let i: int = choose|i: int| 0 <= i < first.len() && (#[trigger] first[i]).uid == "Merge"@;
    assert(second[i].uid == "Merge"@);
    if !has_uid(first, "Script"@) {
        assert(second[second.len() - 1].uid == "Script"@);
    }
}

/// The configuration state of the application: the base configuration, the
/// switches, the profile store and the outcome of the last run, each with a
/// draft of its own.
#[derive(Debug)]
pub struct Config {
    clash_config: Draft<IClashTemp>,
    verge_config: Draft<IVerge>,
    moon_config: Draft<IMoon>,
    profiles_config: Draft<IProfiles>,
    runtime_config: Draft<IRuntime>,
}

impl Config {
    /// The base configuration and its draft.
    pub closed spec fn clash_state(&self) -> Draft<IClashTemp> {
        self.clash_config
    }

    /// The switches and their draft.
    pub closed spec fn verge_state(&self) -> Draft<IVerge> {
        self.verge_config
    }

    /// The side settings and their draft.
    pub closed spec fn moon_state(&self) -> Draft<IMoon> {
        self.moon_config
    }

    /// The profile store and its draft.
    pub closed spec fn profiles_state(&self) -> Draft<IProfiles> {
        self.profiles_config
    }

    /// The outcome of the last run and its draft.
    pub closed spec fn runtime_state(&self) -> Draft<IRuntime> {
        self.runtime_config
    }

    /// The state that holds the given parts, none of them with a draft.
    pub fn new(
        clash: IClashTemp,
        verge: IVerge,
        moon: IMoon,
        profiles: IProfiles,
        runtime: IRuntime,
    ) -> (r: Config)
        ensures
            r.clash_state().committed() == clash && r.clash_state().pending() is None,
            r.verge_state().committed() == verge && r.verge_state().pending() is None,
            r.moon_state().committed() == moon && r.moon_state().pending() is None,
            r.profiles_state().committed() == profiles && r.profiles_state().pending() is None,
            r.runtime_state().committed() == runtime && r.runtime_state().pending() is None,
    {
        Config {
            clash_config: Draft::new(clash),
            verge_config: Draft::new(verge),
            moon_config: Draft::new(moon),
            profiles_config: Draft::new(profiles),
            runtime_config: Draft::new(runtime),
        }
    }

    /// The base configuration, to read or to change; nothing else changes
    /// with it.
    pub fn clash(&mut self) -> (r: &mut Draft<IClashTemp>)
        ensures
            *r == old(self).clash_state(),
            final(self).clash_state() == *final(r),
            final(self).verge_state() == old(self).verge_state(),
            final(self).moon_state() == old(self).moon_state(),
            final(self).profiles_state() == old(self).profiles_state(),
            final(self).runtime_state() == old(self).runtime_state(),
    {
        &mut self.clash_config
    }

    /// The switches, to read or to change; nothing else changes with them.
    pub fn verge(&mut self) -> (r: &mut Draft<IVerge>)
        ensures
            *r == old(self).verge_state(),
            final(self).verge_state() == *final(r),
            final(self).clash_state() == old(self).clash_state(),
            final(self).moon_state() == old(self).moon_state(),
            final(self).profiles_state() == old(self).profiles_state(),
            final(self).runtime_state() == old(self).runtime_state(),
    {
        &mut self.verge_config
    }

    /// The side settings, to read or to change; nothing else changes with
    /// them.
    pub fn moon(&mut self) -> (r: &mut Draft<IMoon>)
        ensures
            *r == old(self).moon_state(),
            final(self).moon_state() == *final(r),
            final(self).clash_state() == old(self).clash_state(),
            final(self).verge_state() == old(self).verge_state(),
            final(self).profiles_state() == old(self).profiles_state(),
            final(self).runtime_state() == old(self).runtime_state(),
    {
        &mut self.moon_config
    }

    /// The profile store, to read or to change; nothing else changes with
    /// it.
    pub fn profiles(&mut self) -> (r: &mut Draft<IProfiles>)
        ensures
            *r == old(self).profiles_state(),
            final(self).profiles_state() == *final(r),
            final(self).clash_state() == old(self).clash_state(),
            final(self).verge_state() == old(self).verge_state(),
            final(self).moon_state() == old(self).moon_state(),
            final(self).runtime_state() == old(self).runtime_state(),
    {
        &mut self.profiles_config
    }

    /// The outcome of the last run, to read or to change; nothing else
    /// changes with it.
    pub fn runtime(&mut self) -> (r: &mut Draft<IRuntime>)
        ensures
            *r == old(self).runtime_state(),
            final(self).runtime_state() == *final(r),
            final(self).clash_state() == old(self).clash_state(),
            final(self).verge_state() == old(self).verge_state(),
            final(self).moon_state() == old(self).moon_state(),
            final(self).profiles_state() == old(self).profiles_state(),
    {
        &mut self.runtime_config
    }

    /// Provides the two built-in profile entries: a merge unit `Merge` and a
    /// script unit `Script` are added to the profile store, each only where
    /// no entry goes by its name. The answer says which of the two were
    /// added. Nothing but the profile store changes.
    pub fn init_config(&mut self) -> (added: (bool, bool))
        ensures
            final(self).profiles_state().committed()@ == provisioned(
                old(self).profiles_state().committed()@,
            ),
            final(self).profiles_state().pending() == old(self).profiles_state().pending(),
            added.0 == !has_uid(old(self).profiles_state().committed()@, "Merge"@),
            added.1 == !has_uid(
                with_item(old(self).profiles_state().committed()@, "Merge"@, ChainKind::Merge),
                "Script"@,
            ),
            final(self).clash_state() == old(self).clash_state(),
            final(self).verge_state() == old(self).verge_state(),
            final(self).moon_state() == old(self).moon_state(),
            final(self).runtime_state() == old(self).runtime_state(),
    {
        let profiles = self.profiles_config.data_mut();
        let merge_missing = profiles.get_item("Merge").is_none();
        if merge_missing {
            profiles.append_item(PrfItem::from_merge("Merge".to_owned()));
        }
        let script_missing = profiles.get_item("Script").is_none();
        if script_missing {
            profiles.append_item(PrfItem::from_script("Script".to_owned()));
        }
        (merge_missing, script_missing)
    }

    /// Starts a run of `registry` over the newest base configuration, with
    /// the tunnel device switched as the newest switches say. The run fails
    /// only where the base configuration is no valid document.
    pub fn enhance(&self, registry: ChainRegistry) -> (r: Result<Engine, RunError>)
        requires
            registry.wf(),
        ensures
            match r {
                Ok(engine) => {
                    &&& document_valid(self.clash_state().newest().0@)
                    &&& engine@ == settle(
                        initial(
                            self.clash_state().newest().0@,
                            registry@,
                            self.verge_state().newest().tun_enabled(),
                        ),
                    )
                    &&& engine.wf()
                },
                Err(error) => error is BaseInvalid && !document_valid(
                    self.clash_state().newest().0@,
                ),
            },
    {
        let base = self.clash_config.latest().0.clone();
        let enable_tun = self.verge_config.latest().tun_mode();
        run(Ok(base), registry, enable_tun)
    }

    /// Takes in what a run gave. The outcome of a run that came to its end
    /// becomes the draft of the runtime state, which the next `apply` makes
    /// the state in one step. A run that could not start leaves every part of
    /// the state exactly as it was, and its error is handed on.
    pub fn generate(&mut self, outcome: Result<EnhancementResult, RunError>) -> (r: Result<
        (),
        RunError,
    >)
        ensures
            match outcome {
                Ok(result) => {
                    &&& r is Ok
                    &&& final(self).runtime_state().pending() == Some(IRuntime::holding(result))
                    &&& final(self).runtime_state().committed() == old(
                        self,
                    ).runtime_state().committed()
                    &&& final(self).clash_state() == old(self).clash_state()
                    &&& final(self).verge_state() == old(self).verge_state()
                    &&& final(self).moon_state() == old(self).moon_state()
                    &&& final(self).profiles_state() == old(self).profiles_state()
                },
                Err(error) => r == Err::<(), RunError>(error) && *final(self) == *old(self),
            },
    {
        match outcome {
            Ok(result) => {
                self.runtime_config.set_draft(IRuntime::of(result));
                Ok(())
            },
            Err(error) => Err(error),
        }
    }

    /// Says which file is to be written for `typ`: the newest document that
    /// a run left goes under the name that belongs to the purpose. Where no
    /// run has left a document there is nothing to write.
    pub fn generate_file(&self, typ: ConfigType) -> (r: Result<ConfigFile<'_>, ConfigError>)
        ensures
            match r {
                Ok(file) => {
                    &&& self.runtime_state().newest().config == Some(*file.config)
                    &&& file.typ == typ
                    &&& file.name@ == match typ {
                        ConfigType::Run => RUNTIME_CONFIG@,
                        ConfigType::Check => CHECK_CONFIG@,
                    }
                    &&& file.header@ == "# Generated by Clash Verge"@
                },
                Err(error) => self.runtime_state().newest().config is None,
            },
    {
        let name = match typ {
            ConfigType::Run => RUNTIME_CONFIG,
            ConfigType::Check => CHECK_CONFIG,
        };
        let header = "# Generated by Clash Verge";
        match &self.runtime_config.latest().config {
            Some(config) => Ok(ConfigFile { typ, name, config, header }),
            None => Err(ConfigError::NoRuntimeConfig),
        }
    }

    /// The file that is written where no run has left a document and no
    /// runtime file exists yet: the newest base configuration as it stands.
    pub fn default_file(&self) -> (file: ConfigFile<'_>)
        ensures
            *file.config == self.clash_state().newest().0,
            file.typ == ConfigType::Run,
            file.name@ == RUNTIME_CONFIG@,
            file.header@ == "# Clash Verge Runtime"@,
    {
        ConfigFile {
            typ: ConfigType::Run,
            name: RUNTIME_CONFIG,
            config: &self.clash_config.latest().0,
            header: "# Clash Verge Runtime",
        }
    }
}

} // verus!
