//! Setting up an application: the builder and the state that it builds.

use vstd::prelude::*;
use core::marker::PhantomData;
use crate::env::Env;

verus! {

/// What changes the first environment of an application.
pub trait EnvSetup<T> {
    fn setup(&self, env: &mut Env, data: &T);
}

/// Handles the first setup of an application.
#[verifier::reject_recursive_types(T)]
pub struct AppBuilder<T> {
    env_setup: Option<Box<dyn EnvSetup<T>>>,
}

/// State shared by all widgets.
pub struct AppState<T> {
    env: Env,
    phantom: PhantomData<T>,
}

impl<T> AppBuilder<T> {
    /// Whether a setup of the environment was given.
    pub closed spec fn configured(&self) -> bool {
        self.env_setup is Some
    }

    /// A builder without a setup of the environment.
    pub fn new() -> (r: Self)
        ensures
            !r.configured(),
    {
        AppBuilder { env_setup: None }
    }

    /// The same builder with `f` as the setup of the environment, which is
    /// handed the environment and the data before the application starts.
    pub fn configure_env(self, f: Box<dyn EnvSetup<T>>) -> (r: Self)
        ensures
            r.configured(),
    {
        let mut builder = self;
        builder.env_setup = Some(f);
        builder
    }

    /// The state of the application for `data`: its environment is the
    /// first environment after the setup that was given, if any, has seen
    /// it.
    pub fn build(self, data: &T) -> (r: AppState<T>)
        ensures
            r.spec_env() == (Env {  }),
    {
        let mut builder = self;
        let mut env = Env {  };
        match builder.env_setup.take() {
            Some(f) => f.setup(&mut env, data),
            None => {},
        }
        AppState::new(env)
    }
}

impl<T> AppState<T> {
    /// The environment.
    pub closed spec fn spec_env(&self) -> Env {
        self.env
    }

    /// The state with the environment `env`.
    pub fn new(env: Env) -> (r: Self)
        ensures
            r.spec_env() == env,
    {
        AppState { env, phantom: PhantomData }
    }

    /// The environment.
    pub fn env(&self) -> (r: &Env)
        ensures
            *r == self.spec_env(),
    {
        &self.env
    }
}

} // verus!
