//! Installer trait for event sources.
use vstd::prelude::*;
use crate::world::WorldBuilder;

verus! {

/// Install-time trait for event sources: registers the source's resources
/// into the builder and returns the poller used at dispatch time.
pub trait Installer<V> {
    /// The poller returned after installation.
    type Poller;

    /// What must hold of the installer and the builder for installation.
    spec fn install_pre(&self, world: WorldBuilder<V>) -> bool;

    /// How installation relates the builder before (`w0`) and after (`w1`)
    /// to the poller it returns.
    spec fn installed(&self, w0: WorldBuilder<V>, w1: WorldBuilder<V>, p: Self::Poller) -> bool;

    /// Register resources and return the poller.
    fn install(self, world: &mut WorldBuilder<V>) -> (p: Self::Poller)
        requires self.install_pre(*old(world)),
        ensures final(world).wf(), self.installed(*old(world), *final(world), p);
}

impl<V> WorldBuilder<V> {
    /// Install a driver: it registers its resources and returns its poller.
    pub fn install_driver<I: Installer<V>>(&mut self, installer: I) -> (p: I::Poller)
        requires installer.install_pre(*old(self)),
        ensures final(self).wf(), installer.installed(*old(self), *final(self), p),
    {
        installer.install(self)
    }
}

} // verus!
