//! The command engine: the registered providers, the project analyzer and
//! the filter engine that together propose the commands for a project.

use vstd::prelude::*;
use crate::commands::{Command, CommandSummary, command_views, summaries, append_commands};
use crate::context::ProjectContext;
use crate::error::RazResult;
use crate::filters::{FilterEngine, engine_result, has_user_filter};
use crate::project_analysis::ProjectAnalyzer;
use crate::providers::bevy::BevyProvider;
use crate::providers::dioxus::DioxusProvider;
use crate::providers::leptos::LeptosProvider;
use crate::providers::tauri::TauriProvider;
use crate::providers::yew::YewProvider;
use crate::providers::{CargoProvider, CommandProvider, DocProvider};

verus! {

/// A registered provider: one of the library's, or one of its user's.
pub enum AnyProvider {
    Cargo(CargoProvider),
    Doc(DocProvider),
    Leptos(LeptosProvider),
    Dioxus(DioxusProvider),
    Bevy(BevyProvider),
    Tauri(TauriProvider),
    Yew(YewProvider),
    /// A provider of the library's user.
    Custom(Box<dyn CommandProvider>),
}

/// What the library's providers are known to give; a provider of the user
/// is known by none of these, and the contracts that speak of them leave it
/// out.
impl AnyProvider {
    pub open spec fn spec_name(&self) -> Seq<char> {
        match self {
            AnyProvider::Cargo(p) => p.spec_name(),
            AnyProvider::Doc(p) => p.spec_name(),
            AnyProvider::Leptos(p) => p.spec_name(),
            AnyProvider::Dioxus(p) => p.spec_name(),
            AnyProvider::Bevy(p) => p.spec_name(),
            AnyProvider::Tauri(p) => p.spec_name(),
            AnyProvider::Yew(p) => p.spec_name(),
            AnyProvider::Custom(_) => Seq::empty(),
        }
    }

    pub open spec fn spec_priority(&self) -> u8 {
        match self {
            AnyProvider::Cargo(p) => p.spec_priority(),
            AnyProvider::Doc(p) => p.spec_priority(),
            AnyProvider::Leptos(p) => p.spec_priority(),
            AnyProvider::Dioxus(p) => p.spec_priority(),
            AnyProvider::Bevy(p) => p.spec_priority(),
            AnyProvider::Tauri(p) => p.spec_priority(),
            AnyProvider::Yew(p) => p.spec_priority(),
            AnyProvider::Custom(_) => 0,
        }
    }

    pub open spec fn handles(&self, context: ProjectContext) -> bool {
        match self {
            AnyProvider::Cargo(p) => p.handles(context),
            AnyProvider::Doc(p) => p.handles(context),
            AnyProvider::Leptos(p) => p.handles(context),
            AnyProvider::Dioxus(p) => p.handles(context),
            AnyProvider::Bevy(p) => p.handles(context),
            AnyProvider::Tauri(p) => p.handles(context),
            AnyProvider::Yew(p) => p.handles(context),
            AnyProvider::Custom(_) => false,
        }
    }

    pub open spec fn provided(&self, context: ProjectContext) -> Seq<CommandSummary> {
        match self {
            AnyProvider::Cargo(p) => p.provided(context),
            AnyProvider::Doc(p) => p.provided(context),
            AnyProvider::Leptos(p) => p.provided(context),
            AnyProvider::Dioxus(p) => p.provided(context),
            AnyProvider::Bevy(p) => p.provided(context),
            AnyProvider::Tauri(p) => p.provided(context),
            AnyProvider::Yew(p) => p.provided(context),
            AnyProvider::Custom(_) => Seq::empty(),
        }
    }
}

impl CommandProvider for AnyProvider {
    fn name(&self) -> (r: &str)
        ensures
            !(self is Custom) ==> r@ == self.spec_name(),
    {
        match self {
            AnyProvider::Cargo(p) => p.name(),
            AnyProvider::Doc(p) => p.name(),
            AnyProvider::Leptos(p) => p.name(),
            AnyProvider::Dioxus(p) => p.name(),
            AnyProvider::Bevy(p) => p.name(),
            AnyProvider::Tauri(p) => p.name(),
            AnyProvider::Yew(p) => p.name(),
            AnyProvider::Custom(p) => p.name(),
        }
    }

    fn priority(&self) -> (r: u8)
        ensures
            !(self is Custom) ==> r == self.spec_priority(),
    {
        match self {
            AnyProvider::Cargo(p) => p.priority(),
            AnyProvider::Doc(p) => p.priority(),
            AnyProvider::Leptos(p) => p.priority(),
            AnyProvider::Dioxus(p) => p.priority(),
            AnyProvider::Bevy(p) => p.priority(),
            AnyProvider::Tauri(p) => p.priority(),
            AnyProvider::Yew(p) => p.priority(),
            AnyProvider::Custom(p) => p.priority(),
        }
    }

    fn can_handle(&self, context: &ProjectContext) -> (r: bool)
        ensures
            !(self is Custom) ==> r == self.handles(*context),
    {
        match self {
            AnyProvider::Cargo(p) => p.can_handle(context),
            AnyProvider::Doc(p) => p.can_handle(context),
            AnyProvider::Leptos(p) => p.can_handle(context),
            AnyProvider::Dioxus(p) => p.can_handle(context),
            AnyProvider::Bevy(p) => p.can_handle(context),
            AnyProvider::Tauri(p) => p.can_handle(context),
            AnyProvider::Yew(p) => p.can_handle(context),
            AnyProvider::Custom(p) => p.can_handle(context),
        }
    }

    fn commands(&self, context: &ProjectContext) -> (r: RazResult<Vec<Command>>)
        ensures
            !(self is Custom) ==> r is Ok ==> summaries(r->Ok_0@) == self.provided(*context),
            !(self is Custom) ==> r is Ok,
    {
        match self {
            AnyProvider::Cargo(p) => p.commands(context),
            AnyProvider::Doc(p) => p.commands(context),
            AnyProvider::Leptos(p) => p.commands(context),
            AnyProvider::Dioxus(p) => p.commands(context),
            AnyProvider::Bevy(p) => p.commands(context),
            AnyProvider::Tauri(p) => p.commands(context),
            AnyProvider::Yew(p) => p.commands(context),
            AnyProvider::Custom(p) => p.commands(context),
        }
    }
}

/// Some provider is one of the library's user.
pub open spec fn has_user_provider(providers: Seq<AnyProvider>) -> bool {
    exists|i: int| 0 <= i < providers.len() && #[trigger] providers[i] is Custom
}

/// The commands of the providers that handle the project, in provider
/// order.
pub open spec fn all_provided(providers: Seq<AnyProvider>, context: ProjectContext) -> Seq<
    CommandSummary,
>
    decreases providers.len(),
{
    if providers.len() == 0 {
        seq![]
    } else {
        let p = providers.last();
        all_provided(providers.drop_last(), context) + (if p.handles(context) {
            p.provided(context)
        } else {
            seq![]
        })
    }
}

/// The built-in providers, in order: Cargo, documentation, Leptos, the
/// given Dioxus provider, Bevy, the given Tauri provider, Yew.
pub open spec fn builtin_providers(
    providers: Seq<AnyProvider>,
    dioxus: DioxusProvider,
    tauri: TauriProvider,
) -> bool {
    &&& providers.len() == 7
    &&& providers[0] matches AnyProvider::Cargo(c) && c.spec_provider_name() == "cargo"@
    &&& providers[1] is Doc
    &&& providers[2] matches AnyProvider::Leptos(l) && l.spec_leptos_priority() == 90
    &&& providers[3] == AnyProvider::Dioxus(dioxus)
    &&& providers[4] matches AnyProvider::Bevy(b) && b.spec_bevy_priority() == 85
    &&& providers[5] == AnyProvider::Tauri(tauri)
    &&& providers[6] matches AnyProvider::Yew(y) && y.spec_yew_priority() == 90
}

/// The command engine.
pub struct RazCore {
    providers: Vec<AnyProvider>,
    pub context_analyzer: ProjectAnalyzer,
    filter_engine: FilterEngine,
}

impl RazCore {
    pub closed spec fn spec_providers(&self) -> Seq<AnyProvider> {
        self.providers@
    }

    pub closed spec fn spec_filter_engine(&self) -> FilterEngine {
        self.filter_engine
    }

    /// An engine with the built-in providers (Cargo, documentation, Leptos,
    /// Dioxus, Bevy, Tauri, Yew, in that order) and the standard filters.
    pub fn new() -> (r: Self)
        ensures
            exists|d: DioxusProvider, t: TauriProvider|
                builtin_providers(r.spec_providers(), d, t) && d.spec_dioxus_priority() == 90
                    && d.spec_override() is None && d.spec_configured() is None
                    && t.spec_tauri_priority() == 88 && t.spec_facts().existing_paths@.len() == 0,
            r.spec_filter_engine().filters().len() == 5,
            r.spec_filter_engine().rules().len() == 0,
    {
        Self::with_environment(DioxusProvider::new(), TauriProvider::new(), FilterEngine::new())
    }

    /// An engine whose built-in Dioxus and Tauri providers are the given
    /// ones (those that carry what was read of the environment and the
    /// project's files), with the other built-in providers and the given
    /// filter engine.
    pub fn with_environment(
        dioxus: DioxusProvider,
        tauri: TauriProvider,
        filter_engine: FilterEngine,
    ) -> (r: Self)
        ensures
            builtin_providers(r.spec_providers(), dioxus, tauri),
            r.spec_filter_engine() == filter_engine,
    {
        let mut raz = RazCore {
            providers: Vec::new(),
            context_analyzer: ProjectAnalyzer::new(),
            filter_engine,
        };
        raz.register_builtin_providers(dioxus, tauri);
        raz
    }

    fn register_builtin_providers(&mut self, dioxus: DioxusProvider, tauri: TauriProvider)
        ensures
            final(self).spec_providers().len() == old(self).spec_providers().len() + 7,
            final(self).spec_providers().take(old(self).spec_providers().len() as int)
                == old(self).spec_providers(),
            builtin_providers(
                final(self).spec_providers().skip(old(self).spec_providers().len() as int),
                dioxus,
                tauri,
            ),
            final(self).spec_filter_engine() == old(self).spec_filter_engine(),
    {
        self.register_provider(AnyProvider::Cargo(CargoProvider::new()));
        self.register_provider(AnyProvider::Doc(DocProvider::new()));
        self.register_provider(AnyProvider::Leptos(LeptosProvider::new()));
        self.register_provider(AnyProvider::Dioxus(dioxus));
        self.register_provider(AnyProvider::Bevy(BevyProvider::new()));
        self.register_provider(AnyProvider::Tauri(tauri));
        self.register_provider(AnyProvider::Yew(YewProvider::new()));
    }

    /// The registered providers, in order.
    pub fn providers(&self) -> (r: &Vec<AnyProvider>)
        ensures
            r@ == self.spec_providers(),
    {
        &self.providers
    }

    /// Adds a provider after the registered ones.
    pub fn register_provider(&mut self, provider: AnyProvider)
        ensures
            final(self).spec_providers() == old(self).spec_providers().push(provider),
            final(self).spec_filter_engine() == old(self).spec_filter_engine(),
    {
        self.providers.push(provider);
    }

    /// The commands for a project: those of every provider that handles
    /// it, in provider order, passed through the filter engine at the
    /// current hour. Only a provider or a filter of the user can fail, and
    /// its error is returned.
    pub fn generate_commands(&self, context: &ProjectContext) -> (r: RazResult<Vec<Command>>)
        ensures
            !has_user_provider(self.spec_providers()) && !has_user_filter(
                self.spec_filter_engine().filters(),
            ) ==> r is Ok && exists|all: Seq<Command>, h: u8|
                summaries(all) == all_provided(self.spec_providers(), *context) && h < 24
                    && command_views(r->Ok_0@) == engine_result(
                    self.spec_filter_engine().filters(),
                    self.spec_filter_engine().rules(),
                    command_views(all),
                    *context,
                    h,
                ),
            r is Err ==> has_user_provider(self.spec_providers()) || has_user_filter(
                self.spec_filter_engine().filters(),
            ),
    {
        let mut all_commands: Vec<Command> = Vec::new();
        let mut i: usize = 0;
        while i < self.providers.len()
            invariant
                i <= self.providers@.len(),
                !has_user_provider(self.providers@.take(i as int)) ==> summaries(all_commands@)
                    == all_provided(self.providers@.take(i as int), *context),
            decreases self.providers.len() - i,
        {
            proof {
                assert(self.providers@.take(i + 1).drop_last() =~= self.providers@.take(i as int));
                assert(self.providers@.take(i + 1).last() == self.providers@[i as int]);
                if !has_user_provider(self.providers@.take(i + 1)) {
                    assert(!(self.providers@.take(i + 1)[i as int] is Custom));
                    assert forall|j: int| 0 <= j < i implies !(#[trigger] self.providers@.take(i as int)[j] is Custom) by {
                        assert(self.providers@.take(i as int)[j] == self.providers@.take(i + 1)[j]);
                    }
                }
            }
            let provider = &self.providers[i];
            if provider.can_handle(context) {
                let commands = match provider.commands(context) {
                    Ok(c) => c,
                    Err(e) => {
                        assert(self.spec_providers()[i as int] is Custom);
                        return Err(e);
                    },
                };
                append_commands(&mut all_commands, commands);
            } else {
                proof {
                    if !has_user_provider(self.providers@.take(i as int)) {
                        assert(summaries(all_commands@) =~= all_provided(self.providers@.take(i as int), *context)
                            + seq![]);
                    }
                }
            }
            i += 1;
        }
        assert(self.providers@.take(self.providers@.len() as int) =~= self.providers@);
        let filtered = self.filter_engine.apply_filters(all_commands.as_slice(), context);
        proof {
            if !has_user_provider(self.spec_providers()) && !has_user_filter(self.spec_filter_engine().filters()) {
                let fe = self.filter_engine;
                let all = all_commands@;
                let h = choose|h: u8|
                    h < 24 && command_views(filtered->Ok_0@) == engine_result(
                        fe.filters(),
                        fe.rules(),
                        command_views(all),
                        *context,
                        h,
                    );
                assert(fe == self.spec_filter_engine());
                assert(summaries(all) == all_provided(self.spec_providers(), *context) && h < 24
                    && command_views(filtered->Ok_0@) == engine_result(
                    self.spec_filter_engine().filters(),
                    self.spec_filter_engine().rules(),
                    command_views(all),
                    *context,
                    h,
                ));
                assert(exists|all2: Seq<Command>, h2: u8|
                    summaries(all2) == all_provided(self.spec_providers(), *context) && h2 < 24
                        && command_views(filtered->Ok_0@) == engine_result(
                        self.spec_filter_engine().filters(),
                        self.spec_filter_engine().rules(),
                        command_views(all2),
                        *context,
                        h2,
                    ));
            }
        }
        filtered
    }
}

} // verus!
