//! What the host application registers: the two initializers that construct
//! the view when the application has built its routes.

use crate::error::{missing_root_text, FailureKind, ViewError};
use crate::view::{copied, probed, MinijinjaView, ReloadMode, TEMPLATES_DIR};
use vstd::prelude::*;
use vstd::string::StringExecFns;

verus! {

/// The name under which both initializers register.
pub const ENGINE_NAME: &'static str = "minijinja";

/// Registers a static view over `TEMPLATES_DIR`.
pub struct MinijinjaViewEngineInitializer;

/// Registers a view over a directory of the caller's choice, on a base
/// environment of the caller's if one is given.
pub struct MinijinjaViewEngineConfigurableInitializer {
    template_directory: String,
    custom_environment: Option<minijinja::Environment<'static>>,
    mode: ReloadMode,
}

impl MinijinjaViewEngineInitializer {
    /// The initializer's name.
    pub fn name(&self) -> (name: String)
        ensures
            name@ == ENGINE_NAME@,
    {
        String::from_str(ENGINE_NAME)
    }

    /// Constructs the view to attach to the application.
    pub fn view(&self) -> (built: Result<MinijinjaView, ViewError>)
        ensures
            probed(TEMPLATES_DIR@, built is Ok),
            built matches Ok(view) ==> view.root() == TEMPLATES_DIR@ && view.mode()
                == ReloadMode::Static && view.built_on(None, TEMPLATES_DIR@),
            built matches Err(failure) ==> failure.kind == FailureKind::Construction
                && failure.message@ == missing_root_text(TEMPLATES_DIR@),
    {
        MinijinjaView::build()
    }
}

impl MinijinjaViewEngineConfigurableInitializer {
    /// The directory that the view will read templates from.
    pub closed spec fn template_directory(&self) -> Seq<char> {
        self.template_directory@
    }

    /// The base environment that the view will start from, if any.
    pub closed spec fn custom_environment(&self) -> Option<minijinja::Environment<'static>> {
        self.custom_environment
    }

    /// The mode that the view will be constructed in.
    pub closed spec fn mode(&self) -> ReloadMode {
        self.mode
    }

    /// An initializer for a static view over `template_directory`.
    pub fn new(
        template_directory: String,
        custom_environment: Option<minijinja::Environment<'static>>,
    ) -> (made: Self)
        ensures
            made.template_directory() == template_directory@,
            made.custom_environment() == custom_environment,
            made.mode() == ReloadMode::Static,
    {
        MinijinjaViewEngineConfigurableInitializer {
            template_directory,
            custom_environment,
            mode: ReloadMode::Static,
        }
    }

    /// The same initializer, for a view in `mode`.
    pub fn with_mode(self, mode: ReloadMode) -> (made: Self)
        ensures
            made.template_directory() == self.template_directory(),
            made.custom_environment() == self.custom_environment(),
            made.mode() == mode,
    {
        MinijinjaViewEngineConfigurableInitializer {
            template_directory: self.template_directory,
            custom_environment: self.custom_environment,
            mode,
        }
    }

    /// The initializer's name.
    pub fn name(&self) -> (name: String)
        ensures
            name@ == ENGINE_NAME@,
    {
        String::from_str(ENGINE_NAME)
    }

    /// Constructs the view to attach to the application, on a copy of the
    /// base environment; the initializer keeps its own and can be used again.
    pub fn view(&self) -> (built: Result<MinijinjaView, ViewError>)
        ensures
            probed(self.template_directory(), built is Ok),
            built matches Ok(view) ==> view.root() == self.template_directory() && view.mode()
                == self.mode(),
            built matches Ok(view) ==> exists|base: Option<minijinja::Environment<'static>>|
                copied(self.custom_environment(), base) && #[trigger] view.built_on(
                    base,
                    self.template_directory(),
                ),
            built matches Err(failure) ==> failure.kind == FailureKind::Construction
                && failure.message@ == missing_root_text(self.template_directory()),
    {
        let base = crate::view::clone_base(&self.custom_environment);
        MinijinjaView::with_mode(self.template_directory.as_str(), base, self.mode)
    }
}

} // verus!
