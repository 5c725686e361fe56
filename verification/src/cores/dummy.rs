//! A core and a manager that do nothing, for a platform without an FPGA.

use super::model::Core;
use vstd::prelude::*;

verus! {

/// A core that does nothing.
#[derive(Debug)]
pub struct DummyCore;

impl DummyCore {
    /// The name of the core.
    pub fn name(&self) -> (r: &'static str)
        ensures
            r@ == "DummyCore"@,
    {
        "DummyCore"
    }

    /// Takes a file, and does nothing with it.
    pub fn load_file(&mut self, path: &str) -> (r: Result<(), String>)
        ensures
            r.is_ok(),
    {
        Ok(())
    }

    /// The version of the core: it has none.
    pub fn version(&self) -> (r: Option<&'static str>)
        ensures
            r.is_none(),
    {
        None
    }

    /// The core as the manager of the lifecycle holds it: a core of which
    /// only the name is known.
    pub fn into_core(self) -> (r: Core)
        ensures
            r matches Core::Other { name } && name@ == "DummyCore"@,
    {
        Core::Other { name: String::from_str("DummyCore") }
    }
}

/// A loader of cores that always gives the core that does nothing.
#[derive(Debug)]
pub struct DummyCoreManager;

impl DummyCoreManager {
    /// Loads a program: gives the core that does nothing.
    pub fn load_program(&mut self, path: &str) -> (r: Result<DummyCore, String>)
        ensures
            r.is_ok(),
    {
        Ok(DummyCore)
    }

    /// Loads the menu core: gives the core that does nothing.
    pub fn load_menu(&mut self) -> (r: Result<DummyCore, String>)
        ensures
            r.is_ok(),
    {
        Ok(DummyCore)
    }

    /// Shows the menu: does nothing.
    pub fn show_menu(&mut self)
        ensures
            *final(self) == *old(self),
    {
    }

    /// Hides the menu: does nothing.
    pub fn hide_menu(&mut self)
        ensures
            *final(self) == *old(self),
    {
    }
}

} // verus!
