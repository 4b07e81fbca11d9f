//! The view: a template environment over a root directory and its two
//! operations, `render` and `render_html`.

use crate::engine::{
    acquire, bind_root, clear_poison, clone_environment, engine_error, execute, guarded, lock,
    locked, lookup, new_environment, new_lock, new_reloader, notifier_of, put, recover,
    request_reload, root_is_directory, set_undefined, watch_root,
};
use crate::error::{
    is_diagnostic, missing_root_message, missing_root_text, stage_outcome, stage_result,
    FailureKind, ViewError,
};
use std::sync::Arc;
use vstd::prelude::*;
use vstd::string::StringExecFns;

verus! {

/// The template root that `MinijinjaView::build` uses.
pub const TEMPLATES_DIR: &'static str = "assets/templates";

/// How a view keeps its environment.
#[derive(Clone, Copy, Debug, PartialEq, Eq, Structural)]
pub enum ReloadMode {
    /// The environment is made once, at construction.
    Static,
    /// The environment is made anew whenever files under the root changed.
    Watching,
}

/// The shared environment, behind its lock. A watching view keeps its base
/// beside the reloader, to make a new reloader from after a panic.
#[derive(Clone)]
enum Handle {
    Static(Arc<std::sync::Mutex<minijinja::Environment<'static>>>),
    Watching(
        Arc<std::sync::Mutex<minijinja_autoreload::AutoReloader>>,
        Option<minijinja::Environment<'static>>,
    ),
}

/// A template environment over one root directory.
#[derive(Clone)]
pub struct MinijinjaView {
    template_dir: String,
    handle: Handle,
}

/// The steps at which a render call in `mode` can fail.
pub open spec fn render_step(mode: ReloadMode, kind: FailureKind) -> bool {
    ||| kind == FailureKind::Lookup
    ||| kind == FailureKind::Execution
    ||| kind == FailureKind::Rebuild && mode == ReloadMode::Watching
}

/// The failures that a render call in `mode` can end in: one of its steps
/// failed, and the message is the engine's own diagnostic.
pub open spec fn render_failure(mode: ReloadMode, failure: ViewError) -> bool {
    &&& render_step(mode, failure.kind)
    &&& exists|cause: minijinja::Error| is_diagnostic(cause, failure.message)
}

/// What a render call in `mode` may answer: any text, or a failure of one of
/// its steps.
pub open spec fn render_answer(mode: ReloadMode, rendered: Result<String, ViewError>) -> bool {
    rendered matches Err(failure) ==> render_failure(mode, failure)
}

/// What `render_html` makes of a render call's result.
pub open spec fn html_result(rendered: Result<String, ViewError>) -> Result<
    axum::response::Html<String>,
    ViewError,
> {
    match rendered {
        Ok(content) => Ok(axum::response::Html(content)),
        Err(failure) => Err(failure),
    }
}

/// `present` is what the file system answered when it was asked whether a
/// directory is at `path`.
pub closed spec fn probed(path: Seq<char>, present: bool) -> bool {
    exists|asked: &str|
        asked@ == path && #[trigger] call_ensures(root_is_directory, (asked,), present)
}

/// `copy` is a copy of the base environment, if there is one.
pub closed spec fn copied(
    base: Option<minijinja::Environment<'static>>,
    copy: Option<minijinja::Environment<'static>>,
) -> bool {
    match base {
        Some(env) => copy matches Some(same) && call_ensures(clone_environment, (&env,), same),
        None => copy is None,
    }
}

/// `start` is the environment that a view starts from: the base, or else a
/// new environment.
spec fn started(
    base: Option<minijinja::Environment<'static>>,
    start: minijinja::Environment<'static>,
) -> bool {
    match base {
        Some(given) => start == given,
        None => call_ensures(new_environment, (), start),
    }
}

/// `env` is the base, or else a new environment, with its loader bound to
/// `root` and set to fail on a value that the data does not hold.
spec fn rooted(
    base: Option<minijinja::Environment<'static>>,
    root: Seq<char>,
    env: minijinja::Environment<'static>,
) -> bool {
    exists|
        start: minijinja::Environment<'static>,
        path: &str,
        bound: minijinja::Environment<'static>,
    |
        started(base, start) && path@ == root && #[trigger] call_ensures(
            bind_root,
            (start, path),
            bound,
        ) && call_ensures(set_undefined, (bound, minijinja::UndefinedBehavior::Strict), env)
}

/// `env` is the environment of a watching view: a copy of the base, or else
/// a new environment, rooted at `root`, made while `notifier` was asked to
/// watch `root` and all below it.
spec fn watched(
    base: Option<minijinja::Environment<'static>>,
    root: &str,
    notifier: &minijinja_autoreload::Notifier,
    env: minijinja::Environment<'static>,
) -> bool {
    &&& exists|copy: Option<minijinja::Environment<'static>>|
        copied(base, copy) && #[trigger] rooted(copy, root@, env)
    &&& call_ensures(watch_root, (notifier, root, true), ())
}

/// `cause` is the engine failure that tells of the missing root `root`.
spec fn root_gone(root: Seq<char>, cause: minijinja::Error) -> bool {
    exists|detail: String|
        detail@ == missing_root_text(root) && #[trigger] call_ensures(
            engine_error,
            (minijinja::ErrorKind::InvalidOperation, detail),
            cause,
        )
}

/// `made` is what making the environment of a watching view gave: the
/// watched environment where a directory is at `root`, and the failure that
/// tells of the missing root where none is.
pub(crate) closed spec fn reloaded(
    base: Option<minijinja::Environment<'static>>,
    root: &str,
    notifier: &minijinja_autoreload::Notifier,
    made: Result<minijinja::Environment<'static>, minijinja::Error>,
) -> bool {
    exists|present: bool| #[trigger]
        probed(root@, present) && match made {
            Ok(env) => present && watched(base, root, notifier, env),
            Err(cause) => !present && root_gone(root@, cause),
        }
}

/// `reloader` makes each of its environments from a copy of `base`, rooted
/// at `root`.
spec fn reloads(
    base: Option<minijinja::Environment<'static>>,
    root: Seq<char>,
    reloader: minijinja_autoreload::AutoReloader,
) -> bool {
    exists|copy: Option<minijinja::Environment<'static>>, name: String|
        copied(base, copy) && name@ == root && #[trigger] call_ensures(
            new_reloader,
            (copy, name),
            reloader,
        )
}

/// `guard` is what taking the lock `shared` gave: the guard itself, or the one
/// inside the error that tells of an earlier holder's panic.
spec fn held<'a, T>(shared: &'a std::sync::Mutex<T>, guard: std::sync::MutexGuard<'a, T>) -> bool {
    exists|taken: Result<
        std::sync::MutexGuard<'a, T>,
        std::sync::PoisonError<std::sync::MutexGuard<'a, T>>,
    >| #[trigger]
        call_ensures(lock::<T>, (shared,), taken) && match taken {
            Ok(free) => guard == free,
            Err(poisoned) => call_ensures(
                recover::<std::sync::MutexGuard<'a, T>>,
                (poisoned,),
                guard,
            ),
        }
}

/// `guard` holds a reloader that no panic has touched: it is what taking the
/// lock `shared` gave, or, where the lock told of an earlier holder's panic,
/// the recovered guard with a new reloader for `base` and `root` put behind
/// it and the lock cleared.
spec fn held_anew<'a>(
    shared: &'a std::sync::Mutex<minijinja_autoreload::AutoReloader>,
    base: Option<minijinja::Environment<'static>>,
    root: Seq<char>,
    guard: std::sync::MutexGuard<'a, minijinja_autoreload::AutoReloader>,
) -> bool {
    exists|taken: Result<
        std::sync::MutexGuard<'a, minijinja_autoreload::AutoReloader>,
        std::sync::PoisonError<std::sync::MutexGuard<'a, minijinja_autoreload::AutoReloader>>,
    >| #[trigger]
        call_ensures(lock::<minijinja_autoreload::AutoReloader>, (shared,), taken) && match taken {
            Ok(free) => guard == free,
            Err(poisoned) => renewed(shared, base, root, poisoned, guard),
        }
}

/// `guard` is the guard inside `poisoned` with a new reloader for `base` and
/// `root` put behind it, and the lock `shared` was cleared.
spec fn renewed<'a>(
    shared: &'a std::sync::Mutex<minijinja_autoreload::AutoReloader>,
    base: Option<minijinja::Environment<'static>>,
    root: Seq<char>,
    poisoned: std::sync::PoisonError<std::sync::MutexGuard<'a, minijinja_autoreload::AutoReloader>>,
    guard: std::sync::MutexGuard<'a, minijinja_autoreload::AutoReloader>,
) -> bool {
    &&& exists|
        stale: std::sync::MutexGuard<'a, minijinja_autoreload::AutoReloader>,
        fresh: minijinja_autoreload::AutoReloader,
    |
        call_ensures(
            recover::<std::sync::MutexGuard<'a, minijinja_autoreload::AutoReloader>>,
            (poisoned,),
            stale,
        ) && reloads(base, root, fresh) && #[trigger] call_ensures(
            put::<minijinja_autoreload::AutoReloader>,
            (stale, fresh),
            guard,
        )
    &&& call_ensures(clear_poison::<minijinja_autoreload::AutoReloader>, (shared,), ())
}

/// `handle` was made from `base` for the root `path`: behind the lock of a
/// static view is the base (or else a new environment) rooted at `path`; a
/// watching view keeps the base, and behind its lock is a reloader that makes
/// each environment from a copy of the base, rooted at `path`.
spec fn made_on(
    handle: Handle,
    base: Option<minijinja::Environment<'static>>,
    path: Seq<char>,
) -> bool {
    match handle {
        Handle::Static(shared) => exists|env: minijinja::Environment<'static>|
            rooted(base, path, env) && #[trigger] call_ensures(
                new_lock::<minijinja::Environment<'static>>,
                (env,),
                *shared,
            ),
        Handle::Watching(shared, kept) => kept == base && exists|
            reloader: minijinja_autoreload::AutoReloader,
        |
            reloads(base, path, reloader) && #[trigger] call_ensures(
                new_lock::<minijinja_autoreload::AutoReloader>,
                (reloader,),
                *shared,
            ),
    }
}

/// `failure` is the failure of the step `kind` with the diagnostic of `cause`.
spec fn failed(kind: FailureKind, cause: minijinja::Error, failure: ViewError) -> bool {
    failure.kind == kind && is_diagnostic(cause, failure.message)
}

/// `rendered` is what the engine answered when `key` was looked up in `env`
/// and the template was run against `data`: the text unchanged, or the
/// failure of the step that failed.
spec fn rendered_in(
    env: &minijinja::Environment<'static>,
    key: &str,
    data: minijinja::Value,
    rendered: Result<String, ViewError>,
) -> bool {
    exists|found: Result<minijinja::Template<'_, '_>, minijinja::Error>| #[trigger]
        call_ensures(lookup, (env, key), found) && match found {
            Ok(template) => exists|ran: Result<String, minijinja::Error>| #[trigger]
                call_ensures(execute, (&template, data), ran) && stage_outcome(
                    FailureKind::Execution,
                    ran,
                    rendered,
                ),
            Err(cause) => rendered matches Err(failure) && failed(
                FailureKind::Lookup,
                cause,
                failure,
            ),
        }
}

/// The reloader was told to make its environment anew when it is next
/// acquired.
spec fn asked_again(reloader: &minijinja_autoreload::AutoReloader) -> bool {
    exists|notifier: minijinja_autoreload::Notifier| #[trigger]
        call_ensures(notifier_of, (reloader,), notifier) && call_ensures(
            request_reload,
            (&notifier,),
            (),
        )
}

/// `rendered` is what a render call for `key` and `data` answers once
/// `reloader` was asked for its environment: what rendering in that
/// environment gave, or the failure to rebuild, after which the reloader was
/// told to rebuild again at the next call.
spec fn acquired_in(
    reloader: &minijinja_autoreload::AutoReloader,
    key: &str,
    data: minijinja::Value,
    rendered: Result<String, ViewError>,
) -> bool {
    exists|acquired: Result<minijinja_autoreload::EnvironmentGuard<'_>, minijinja::Error>|
        #[trigger] call_ensures(acquire, (reloader,), acquired) && match acquired {
            Ok(current) => exists|env: &minijinja::Environment<'static>| #[trigger]
                call_ensures(guarded, (&current,), env) && rendered_in(env, key, data, rendered),
            Err(cause) => rendered matches Err(failure) && failed(
                FailureKind::Rebuild,
                cause,
                failure,
            ) && asked_again(reloader),
        }
}

/// Takes the lock, also after an earlier holder panicked.
fn hold<'a, T>(shared: &'a std::sync::Mutex<T>) -> (guard: std::sync::MutexGuard<'a, T>)
    ensures
        held(shared, guard),
{
    match lock(shared) {
        Ok(guard) => guard,
        Err(poisoned) => recover(poisoned),
    }
}

/// Takes the lock of a watching view. After an earlier holder panicked the
/// reloader behind the lock may be unusable, so a new one takes its place
/// before the guard is handed out.
fn hold_anew<'a>(
    shared: &'a std::sync::Mutex<minijinja_autoreload::AutoReloader>,
    base: &Option<minijinja::Environment<'static>>,
    root: &str,
) -> (guard: std::sync::MutexGuard<'a, minijinja_autoreload::AutoReloader>)
    ensures
        held_anew(shared, *base, root@, guard),
{
    match lock(shared) {
        Ok(guard) => guard,
        Err(poisoned) => {
            let stale = recover(poisoned);
            let fresh = reloader_for(base, root);
            let guard = put(stale, fresh);
            clear_poison(shared);
            guard
        },
    }
}

/// A copy of the base environment, if there is one.
pub(crate) fn clone_base(base: &Option<minijinja::Environment<'static>>) -> (copy: Option<
    minijinja::Environment<'static>,
>)
    ensures
        copied(*base, copy),
{
    match base {
        Some(env) => Some(clone_environment(env)),
        None => None,
    }
}

/// The environment that loads from `root`: the base, or else a new one, with
/// the loader bound to `root`. A template that reads a value which the data
/// does not hold fails in it, whatever the base was set to.
fn rooted_environment(base: Option<minijinja::Environment<'static>>, root: &str) -> (env:
    minijinja::Environment<'static>)
    ensures
        rooted(base, root@, env),
{
    let start = match base {
        Some(given) => given,
        None => new_environment(),
    };
    set_undefined(bind_root(start, root), minijinja::UndefinedBehavior::Strict)
}

/// The reloader of a watching view over `root`, on a copy of `base`.
fn reloader_for(base: &Option<minijinja::Environment<'static>>, root: &str) -> (reloader:
    minijinja_autoreload::AutoReloader)
    ensures
        reloads(*base, root@, reloader),
{
    new_reloader(clone_base(base), String::from_str(root))
}

/// Makes the environment of a watching view, as construction makes that of a
/// static one: a missing root fails; else the environment is rooted at `root`
/// and `notifier` is asked to watch the root and all below it. The reloader
/// calls this each time it reloads.
pub(crate) fn reload_environment(
    base: &Option<minijinja::Environment<'static>>,
    root: &str,
    notifier: &minijinja_autoreload::Notifier,
) -> (made: Result<minijinja::Environment<'static>, minijinja::Error>)
    ensures
        reloaded(*base, root, notifier, made),
{
    let present = root_is_directory(root);
    assert(probed(root@, present));
    if !present {
        let detail = missing_root_message(root);
        let cause = engine_error(minijinja::ErrorKind::InvalidOperation, detail);
        assert(root_gone(root@, cause));
        return Err(cause);
    }
    let copy = clone_base(base);
    let env = rooted_environment(copy, root);
    watch_root(notifier, root, true);
    assert(watched(*base, root, notifier, env));
    Ok(env)
}

/// Looks `key` up in `env` and runs the template against `data`.
fn render_in(env: &minijinja::Environment<'static>, key: &str, data: minijinja::Value) -> (rendered:
    Result<String, ViewError>)
    ensures
        rendered_in(env, key, data, rendered),
        render_answer(ReloadMode::Static, rendered),
{
    match stage_result(FailureKind::Lookup, lookup(env, key)) {
        Ok(template) => stage_result(FailureKind::Execution, execute(&template, data)),
        Err(failure) => Err(failure),
    }
}

/// Asks `reloader` for its environment and renders in it. Where the
/// environment could not be made anew, the call fails and the reloader is
/// told to try again at the next call, so that it never hands out the
/// environment it had before.
fn render_acquired(
    reloader: &minijinja_autoreload::AutoReloader,
    key: &str,
    data: minijinja::Value,
) -> (rendered: Result<String, ViewError>)
    ensures
        acquired_in(reloader, key, data, rendered),
        render_answer(ReloadMode::Watching, rendered),
{
    match stage_result(FailureKind::Rebuild, acquire(reloader)) {
        Ok(current) => {
            let rendered = render_in(guarded(&current), key, data);
            rendered
        },
        Err(failure) => {
            let notifier = notifier_of(reloader);
            request_reload(&notifier);
            Err(failure)
        },
    }
}

/// Marks a rendered text as HTML; a failure is handed on unchanged.
pub fn mark_html(rendered: Result<String, ViewError>) -> (marked: Result<
    axum::response::Html<String>,
    ViewError,
>)
    ensures
        marked == html_result(rendered),
{
    match rendered {
        Ok(content) => Ok(axum::response::Html(content)),
        Err(failure) => Err(failure),
    }
}

/// Marking as HTML keeps the content: a rendered text comes back with the same
/// characters, a failure comes back as the same failure, and nothing else
/// comes back. So what `render_html` answers differs from what `render`
/// answers in the mark alone.
pub proof fn html_keeps_content(rendered: Result<String, ViewError>)
    ensures
        html_result(rendered) is Ok <==> rendered is Ok,
        rendered matches Ok(text) ==> html_result(rendered) matches Ok(html) && html.0 == text,
        rendered matches Err(failure) ==> html_result(rendered) matches Err(same) && same
            == failure,
{
}

impl MinijinjaView {
    /// The root directory that the view's templates are read from.
    pub closed spec fn root(&self) -> Seq<char> {
        self.template_dir@
    }

    /// The mode that the view was constructed in.
    pub closed spec fn mode(&self) -> ReloadMode {
        match self.handle {
            Handle::Static(_) => ReloadMode::Static,
            Handle::Watching(_, _) => ReloadMode::Watching,
        }
    }

    /// The view's environment was made from `base` and loads from `path`, in
    /// either mode, and fails on a value that the data does not hold.
    pub closed spec fn built_on(
        &self,
        base: Option<minijinja::Environment<'static>>,
        path: Seq<char>,
    ) -> bool {
        made_on(self.handle, base, path)
    }

    /// `rendered` is what this view answers to a render call for `key` and
    /// `data`: under the view's lock, and for a watching view in the
    /// environment that its reloader gave, the engine looked `key` up and ran
    /// the template against `data`. A text comes back unchanged; a failure is
    /// that of the first step that failed, with the engine's diagnostic.
    pub closed spec fn renders(
        &self,
        key: &str,
        data: minijinja::Value,
        rendered: Result<String, ViewError>,
    ) -> bool {
        match self.handle {
            Handle::Static(shared) => exists|
                guard: std::sync::MutexGuard<'_, minijinja::Environment<'static>>,
                env: &minijinja::Environment<'static>,
            |
                held(&*shared, guard) && #[trigger] call_ensures(
                    locked::<minijinja::Environment<'static>>,
                    (&guard,),
                    env,
                ) && rendered_in(env, key, data, rendered),
            Handle::Watching(shared, base) => exists|
                guard: std::sync::MutexGuard<'_, minijinja_autoreload::AutoReloader>,
                reloader: &minijinja_autoreload::AutoReloader,
            |
                held_anew(&*shared, base, self.template_dir@, guard) && #[trigger] call_ensures(
                    locked::<minijinja_autoreload::AutoReloader>,
                    (&guard,),
                    reloader,
                ) && acquired_in(reloader, key, data, rendered),
        }
    }

    /// The mode that the view was constructed in.
    pub fn reload_mode(&self) -> (mode: ReloadMode)
        ensures
            mode == self.mode(),
    {
        match &self.handle {
            Handle::Static(_) => ReloadMode::Static,
            Handle::Watching(_, _) => ReloadMode::Watching,
        }
    }

    /// The root directory that the view's templates are read from.
    pub fn template_dir(&self) -> (dir: &str)
        ensures
            dir@ == self.root(),
    {
        self.template_dir.as_str()
    }

    /// Constructs the view over `path`, given whether the root is `present`.
    /// A missing root fails at once, before any environment is made.
    pub fn from_probe(
        path: &str,
        present: bool,
        custom_environment: Option<minijinja::Environment<'static>>,
        mode: ReloadMode,
    ) -> (built: Result<MinijinjaView, ViewError>)
        ensures
            built is Ok <==> present,
            built matches Ok(view) ==> view.root() == path@ && view.mode() == mode
                && view.built_on(custom_environment, path@),
            built matches Err(failure) ==> failure.kind == FailureKind::Construction
                && failure.message@ == missing_root_text(path@),
    {
        if !present {
            return Err(ViewError::missing_root(path));
        }
        let handle = match mode {
            ReloadMode::Static => {
                let env = rooted_environment(custom_environment, path);
                let shared = Arc::new(new_lock(env));
                let handle = Handle::Static(shared);
                assert(handle matches Handle::Static(same) && same == shared);
                assert(made_on(handle, custom_environment, path@));
                handle
            },
            ReloadMode::Watching => {
                let reloader = reloader_for(&custom_environment, path);
                let shared = Arc::new(new_lock(reloader));
                let handle = Handle::Watching(shared, custom_environment);
                assert(handle matches Handle::Watching(same, kept) && same == shared && kept
                    == custom_environment);
                assert(made_on(handle, custom_environment, path@));
                handle
            },
        };
        Ok(MinijinjaView { template_dir: String::from_str(path), handle })
    }

    /// Constructs the view over `path` in `mode`, on `custom_environment` if
    /// one is given. Fails if no directory is at `path`.
    pub fn with_mode(
        path: &str,
        custom_environment: Option<minijinja::Environment<'static>>,
        mode: ReloadMode,
    ) -> (built: Result<MinijinjaView, ViewError>)
        ensures
            probed(path@, built is Ok),
            built matches Ok(view) ==> view.root() == path@ && view.mode() == mode
                && view.built_on(custom_environment, path@),
            built matches Err(failure) ==> failure.kind == FailureKind::Construction
                && failure.message@ == missing_root_text(path@),
    {
        let present = root_is_directory(path);
        Self::from_probe(path, present, custom_environment, mode)
    }

    /// Constructs a static view over `path`, on `custom_environment` if one is
    /// given. Fails if no directory is at `path`.
    pub fn from_custom(
        path: &str,
        custom_environment: Option<minijinja::Environment<'static>>,
    ) -> (built: Result<MinijinjaView, ViewError>)
        ensures
            probed(path@, built is Ok),
            built matches Ok(view) ==> view.root() == path@ && view.mode() == ReloadMode::Static
                && view.built_on(custom_environment, path@),
            built matches Err(failure) ==> failure.kind == FailureKind::Construction
                && failure.message@ == missing_root_text(path@),
    {
        Self::with_mode(path, custom_environment, ReloadMode::Static)
    }

    /// Constructs a static view over `TEMPLATES_DIR`. Fails if no directory is
    /// there.
    pub fn build() -> (built: Result<MinijinjaView, ViewError>)
        ensures
            probed(TEMPLATES_DIR@, built is Ok),
            built matches Ok(view) ==> view.root() == TEMPLATES_DIR@ && view.mode()
                == ReloadMode::Static && view.built_on(None, TEMPLATES_DIR@),
            built matches Err(failure) ==> failure.kind == FailureKind::Construction
                && failure.message@ == missing_root_text(TEMPLATES_DIR@),
    {
        Self::from_custom(TEMPLATES_DIR, None)
    }

    /// Renders the template `key` against `data`. The lock is held from the
    /// lookup to the end of the run; a watching view first makes its
    /// environment anew if files changed.
    pub fn render_template(&self, key: &str, data: minijinja::Value) -> (rendered: Result<
        String,
        ViewError,
    >)
        ensures
            self.renders(key, data, rendered),
            render_answer(self.mode(), rendered),
    {
        match &self.handle {
            Handle::Static(shared) => {
                let guard = hold(&**shared);
                let rendered = render_in(locked(&guard), key, data);
                rendered
            },
            Handle::Watching(shared, base) => {
                let guard = hold_anew(&**shared, base, self.template_dir.as_str());
                let rendered = render_acquired(locked(&guard), key, data);
                rendered
            },
        }
    }

    /// Renders as `render_template` does and marks the text as HTML: the
    /// answer is that of a render call for `key` and `data`, with the text
    /// marked.
    pub fn render_html(&self, key: &str, data: minijinja::Value) -> (marked: Result<
        axum::response::Html<String>,
        ViewError,
    >)
        ensures
            exists|rendered: Result<String, ViewError>|
                self.renders(key, data, rendered) && render_answer(self.mode(), rendered)
                    && marked == #[trigger] html_result(rendered),
            marked matches Err(failure) ==> render_failure(self.mode(), failure),
    {
        let rendered = self.render_template(key, data);
        mark_html(rendered)
    }

    /// Renders the template `key` against `data`.
    pub fn render(&self, key: &str, data: minijinja::Value) -> (rendered: Result<String, ViewError>)
        ensures
            self.renders(key, data, rendered),
            render_answer(self.mode(), rendered),
    {
        self.render_template(key, data)
    }
}

} // verus!
