use vstd::prelude::*;

verus! {

/// Metadata about a visual log command: the drawing surface and the target
/// (a hierarchical name, usually a module path) that backends filter on.
#[derive(Clone, Copy, PartialEq, Eq, PartialOrd, Ord, Hash, Debug)]
pub struct Metadata<'a> {
    surface: &'a str,
    target: &'a str,
}

impl<'a> Metadata<'a> {
    /// The surface named by this metadata.
    pub closed spec fn spec_surface(&self) -> &'a str {
        self.surface
    }

    /// The target named by this metadata.
    pub closed spec fn spec_target(&self) -> &'a str {
        self.target
    }

    /// Returns a new builder, starting from an empty surface and target.
    pub fn builder() -> (r: MetadataBuilder<'a>)
        ensures
            r.spec_metadata().spec_surface()@ == Seq::<char>::empty(),
            r.spec_metadata().spec_target()@ == Seq::<char>::empty(),
    {
        MetadataBuilder::new()
    }

    /// The surface to draw on.
    pub fn surface(&self) -> (r: &'a str)
        ensures
            r == self.spec_surface(),
    {
        self.surface
    }

    /// The name of the target of the command.
    pub fn target(&self) -> (r: &'a str)
        ensures
            r == self.spec_target(),
    {
        self.target
    }
}

/// Builder for [`Metadata`].
#[derive(PartialEq, Eq, PartialOrd, Ord, Hash, Debug)]
pub struct MetadataBuilder<'a> {
    metadata: Metadata<'a>,
}

impl<'a> MetadataBuilder<'a> {
    /// The metadata that `build` returns.
    pub closed spec fn spec_metadata(&self) -> Metadata<'a> {
        self.metadata
    }

    /// A builder whose surface and target are both `""`.
    pub fn new() -> (r: MetadataBuilder<'a>)
        ensures
            r.spec_metadata().spec_surface()@ == Seq::<char>::empty(),
            r.spec_metadata().spec_target()@ == Seq::<char>::empty(),
    {
        let empty: &'a str = "";
        proof {
            reveal_strlit("");
        }
        MetadataBuilder { metadata: Metadata { surface: empty, target: empty } }
    }

    /// Sets the surface, keeping the target.
    pub fn surface(&mut self, surface: &'a str) -> (r: &mut MetadataBuilder<'a>)
        ensures
            r.spec_metadata().spec_surface() == surface,
            r.spec_metadata().spec_target() == old(self).spec_metadata().spec_target(),
            *final(self) == *final(r),
    {
        self.metadata.surface = surface;
        self
    }

    /// Sets the target, keeping the surface.
    pub fn target(&mut self, target: &'a str) -> (r: &mut MetadataBuilder<'a>)
        ensures
            r.spec_metadata().spec_target() == target,
            r.spec_metadata().spec_surface() == old(self).spec_metadata().spec_surface(),
            *final(self) == *final(r),
    {
        self.metadata.target = target;
        self
    }

    /// Returns the metadata built so far.
    pub fn build(&self) -> (r: Metadata<'a>)
        ensures
            r == self.spec_metadata(),
    {
        self.metadata
    }
}

impl<'a> Default for MetadataBuilder<'a> {
    fn default() -> (r: MetadataBuilder<'a>)
        ensures
            r.spec_metadata().spec_surface()@ == Seq::<char>::empty(),
            r.spec_metadata().spec_target()@ == Seq::<char>::empty(),
    {
        MetadataBuilder::new()
    }
}

} // verus!
