//! The template engine, its reloader and the lock around them, as far as the
//! view relies on them. Nothing in this file is proved: each item states what
//! is taken on trust from the code it names.

use vstd::prelude::*;

verus! {

/// `minijinja::Environment`: the engine's registry of templates.
#[verifier::external_type_specification]
#[verifier::external_body]
pub struct ExEnvironment<'source>(minijinja::Environment<'source>);

/// `minijinja::Template`: a handle to one compiled template.
#[verifier::external_type_specification]
#[verifier::external_body]
pub struct ExTemplate<'env: 'source, 'source>(minijinja::Template<'env, 'source>);

/// `minijinja::Error`: the engine's failure.
#[verifier::external_type_specification]
#[verifier::external_body]
pub struct ExEngineError(minijinja::Error);

/// `minijinja::Value`: the data a template runs against.
#[verifier::external_type_specification]
#[verifier::external_body]
pub struct ExValue(minijinja::Value);

/// `minijinja::UndefinedBehavior`: what the engine does with a value that the
/// data does not hold. Its variants are read as they stand.
#[verifier::external_type_specification]
pub struct ExUndefinedBehavior(minijinja::UndefinedBehavior);

/// `minijinja::ErrorKind`: the sort of an engine failure. Its variants are
/// read as they stand.
#[verifier::external_type_specification]
pub struct ExEngineErrorKind(minijinja::ErrorKind);

/// `minijinja_autoreload::AutoReloader`: an environment that is made anew
/// when its notifier asks for it.
#[verifier::external_type_specification]
#[verifier::external_body]
pub struct ExAutoReloader(minijinja_autoreload::AutoReloader);

/// `minijinja_autoreload::EnvironmentGuard`: the reloader's current environment.
#[verifier::external_type_specification]
#[verifier::external_body]
pub struct ExEnvironmentGuard<'reloader>(minijinja_autoreload::EnvironmentGuard<'reloader>);

/// `minijinja_autoreload::Notifier`: what tells a reloader to reload.
#[verifier::external_type_specification]
#[verifier::external_body]
pub struct ExNotifier(minijinja_autoreload::Notifier);

/// `std::sync::Mutex`.
#[verifier::external_type_specification]
#[verifier::external_body]
#[verifier::reject_recursive_types(T)]
pub struct ExMutex<T: ?Sized>(std::sync::Mutex<T>);

/// `std::sync::MutexGuard`.
#[verifier::external_type_specification]
#[verifier::external_body]
#[verifier::reject_recursive_types(T)]
pub struct ExMutexGuard<'a, T: ?Sized + 'a>(std::sync::MutexGuard<'a, T>);

/// `std::sync::PoisonError`.
#[verifier::external_type_specification]
#[verifier::external_body]
#[verifier::reject_recursive_types(T)]
pub struct ExPoisonError<T>(std::sync::PoisonError<T>);

/// `axum::response::Html`: a body marked as HTML. Its one field is public and
/// is read as it stands.
#[verifier::external_type_specification]
pub struct ExHtml<T>(axum::response::Html<T>);

/// `minijinja::Environment::new`: an environment with the engine's defaults
/// and no template. Nothing is claimed of it.
#[verifier::external_body]
pub(crate) fn new_environment() -> (env: minijinja::Environment<'static>) {
    minijinja::Environment::new()
}

/// `Clone` of `minijinja::Environment`. Nothing is claimed of the copy.
#[verifier::external_body]
pub(crate) fn clone_environment(env: &minijinja::Environment<'static>) -> (copy:
    minijinja::Environment<'static>) {
    env.clone()
}

/// `minijinja::Environment::set_loader` with `minijinja::path_loader`: the
/// environment that comes back reads the templates that it does not hold from
/// files under `root`. Nothing more is claimed of it.
#[verifier::external_body]
pub(crate) fn bind_root(env: minijinja::Environment<'static>, root: &str) -> (bound:
    minijinja::Environment<'static>) {
    let mut bound = env;
    bound.set_loader(minijinja::path_loader(root));
    bound
}

/// `minijinja::Environment::set_undefined_behavior`: the environment that
/// comes back treats a value that the data does not hold as `behavior` says.
/// Nothing more is claimed of it.
#[verifier::external_body]
pub(crate) fn set_undefined(
    env: minijinja::Environment<'static>,
    behavior: minijinja::UndefinedBehavior,
) -> (set: minijinja::Environment<'static>) {
    let mut set = env;
    set.set_undefined_behavior(behavior);
    set
}

/// `minijinja::Error::new`: an engine failure of the sort `kind` that says
/// `detail`. Nothing is claimed of it.
#[verifier::external_body]
pub(crate) fn engine_error(kind: minijinja::ErrorKind, detail: String) -> (failure:
    minijinja::Error) {
    minijinja::Error::new(kind, detail)
}

/// `minijinja::Environment::get_template`. The answer depends on the files
/// under the root, so nothing is claimed of it.
#[verifier::external_body]
pub(crate) fn lookup<'a>(env: &'a minijinja::Environment<'static>, name: &str) -> (found: Result<
    minijinja::Template<'a, 'a>,
    minijinja::Error,
>) {
    env.get_template(name)
}

/// `minijinja::Template::render`. A template may pull in others from the
/// root, so nothing is claimed of the answer.
#[verifier::external_body]
pub(crate) fn execute(template: &minijinja::Template<'_, '_>, data: minijinja::Value) -> (rendered:
    Result<String, minijinja::Error>) {
    template.render(data)
}

/// `minijinja_autoreload::AutoReloader::new`, with a creator that makes each
/// environment by `reload_environment` from `base` and `root`. The creator
/// runs later, when an environment is acquired. Nothing is claimed of the
/// reloader.
#[verifier::external_body]
pub(crate) fn new_reloader(
    base: Option<minijinja::Environment<'static>>,
    root: String,
) -> (reloader: minijinja_autoreload::AutoReloader) {
    minijinja_autoreload::AutoReloader::new(
        move |notifier| crate::view::reload_environment(&base, &root, &notifier),
    )
}

/// `minijinja_autoreload::Notifier::watch_path`: asks for a reload when
/// something under `root` changes. It panics where the system gives no file
/// watcher.
#[verifier::external_body]
pub(crate) fn watch_root(notifier: &minijinja_autoreload::Notifier, root: &str, recursive: bool) {
    notifier.watch_path(root, recursive);
}

/// `minijinja_autoreload::AutoReloader::notifier`: a handle to the reloader's
/// notifier.
#[verifier::external_body]
pub(crate) fn notifier_of(reloader: &minijinja_autoreload::AutoReloader) -> (notifier:
    minijinja_autoreload::Notifier) {
    reloader.notifier()
}

/// `minijinja_autoreload::Notifier::request_reload`: the reloader makes its
/// environment anew when it is next acquired.
#[verifier::external_body]
pub(crate) fn request_reload(notifier: &minijinja_autoreload::Notifier) {
    notifier.request_reload();
}

/// `minijinja_autoreload::AutoReloader::acquire_env`: the current
/// environment, made anew first if a reload was asked for. Whether it was
/// depends on the files, so nothing is claimed of the answer. The guard keeps
/// the reloader's own lock, and the call panics once a holder of that lock
/// has panicked: the view hands it no reloader that a panic may have touched.
#[verifier::external_body]
pub(crate) fn acquire<'a>(reloader: &'a minijinja_autoreload::AutoReloader) -> (acquired: Result<
    minijinja_autoreload::EnvironmentGuard<'a>,
    minijinja::Error,
>) {
    reloader.acquire_env()
}

/// `Deref` of `minijinja_autoreload::EnvironmentGuard`: the environment
/// behind the guard.
#[verifier::external_body]
pub(crate) fn guarded<'a>(guard: &'a minijinja_autoreload::EnvironmentGuard<'_>) -> (env:
    &'a minijinja::Environment<'static>) {
    std::ops::Deref::deref(guard)
}

/// `std::sync::Mutex::new`.
#[verifier::external_body]
pub(crate) fn new_lock<T>(value: T) -> (lock: std::sync::Mutex<T>) {
    std::sync::Mutex::new(value)
}

/// `std::sync::Mutex::lock`: waits until the lock is free. The error means
/// that an earlier holder panicked; the guard is inside it. A thread that
/// already holds the lock must not ask for it again.
#[verifier::external_body]
pub(crate) fn lock<'a, T>(shared: &'a std::sync::Mutex<T>) -> (held: Result<
    std::sync::MutexGuard<'a, T>,
    std::sync::PoisonError<std::sync::MutexGuard<'a, T>>,
>) {
    shared.lock()
}

/// `std::sync::PoisonError::into_inner`: the guard that the error carries.
#[verifier::external_body]
pub(crate) fn recover<G>(poisoned: std::sync::PoisonError<G>) -> (guard: G) {
    poisoned.into_inner()
}

/// `DerefMut` of `std::sync::MutexGuard`: puts `value` behind the lock that
/// `guard` holds, in place of what was there, and hands the guard back.
#[verifier::external_body]
pub(crate) fn put<'a, T>(guard: std::sync::MutexGuard<'a, T>, value: T) -> (kept:
    std::sync::MutexGuard<'a, T>) {
    let mut kept = guard;
    *std::ops::DerefMut::deref_mut(&mut kept) = value;
    kept
}

/// `std::sync::Mutex::clear_poison`: the lock no longer tells of an earlier
/// holder's panic.
#[verifier::external_body]
pub(crate) fn clear_poison<T>(shared: &std::sync::Mutex<T>) {
    shared.clear_poison();
}

/// `Deref` of `std::sync::MutexGuard`: the value behind the lock.
#[verifier::external_body]
pub(crate) fn locked<'a, T>(guard: &'a std::sync::MutexGuard<'_, T>) -> (value: &'a T) {
    std::ops::Deref::deref(guard)
}

/// `std::path::Path::is_dir`: whether a directory is at `path` now. The
/// answer depends on the file system, so nothing is claimed of it.
#[verifier::external_body]
pub(crate) fn root_is_directory(path: &str) -> (present: bool) {
    std::path::Path::new(path).is_dir()
}

} // verus!
