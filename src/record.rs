use vstd::prelude::*;

use crate::metadata::{Metadata, MetadataBuilder};
use crate::visual::{Color, Visual};

verus! {

/// The bit pattern of `12.0`, the size a new record starts with.
pub const DEFAULT_SIZE: u64 = 0x4028_0000_0000_0000;

/// A string that is either `'static` or borrowed for the record's lifetime.
#[derive(Clone, Copy, PartialEq, Eq, PartialOrd, Ord, Hash, Debug)]
enum MaybeStaticStr<'a> {
    Static(&'static str),
    Borrowed(&'a str),
}

impl<'a> MaybeStaticStr<'a> {
    spec fn spec_get(self) -> &'a str {
        match self {
            MaybeStaticStr::Static(s) => s,
            MaybeStaticStr::Borrowed(s) => s,
        }
    }

    fn get(&self) -> (r: &'a str)
        ensures
            r == self.spec_get(),
    {
        match *self {
            MaybeStaticStr::Static(s) => s,
            MaybeStaticStr::Borrowed(s) => s,
        }
    }
}

spec fn opt_get<'a>(s: Option<MaybeStaticStr<'a>>) -> Option<&'a str> {
    match s {
        Some(m) => Some(m.spec_get()),
        None => None,
    }
}

spec fn opt_static<'a>(s: Option<MaybeStaticStr<'a>>) -> Option<&'static str> {
    match s {
        Some(MaybeStaticStr::Static(m)) => Some(m),
        _ => None,
    }
}

/// One visual log command, ready for a backend: the metadata, the visual,
/// its color and size, the already formatted text, and where in the source it
/// was issued.
///
/// The size is the bit pattern of an `f64`: the diameter or width of a
/// world-space point, the pixel size of a screen-space marker, the thickness
/// of a line, or the font size of a label or message.
#[derive(Clone, Copy, Debug)]
pub struct Record<'a> {
    metadata: Metadata<'a>,
    visual: Visual,
    color: Color,
    size: u64,
    args: &'a str,
    module_name: Option<MaybeStaticStr<'a>>,
    file: Option<MaybeStaticStr<'a>>,
    line: Option<u32>,
}

/// What a [`Record`] holds, as its accessors return it.
pub struct RecordView<'a> {
    pub metadata: Metadata<'a>,
    pub visual: Visual,
    pub color: Color,
    pub size: u64,
    pub args: &'a str,
    pub module_name: Option<&'a str>,
    pub module_name_static: Option<&'static str>,
    pub file: Option<&'a str>,
    pub file_static: Option<&'static str>,
    pub line: Option<u32>,
}

impl<'a> RecordView<'a> {
    /// Whether this holds the values that a new builder starts with.
    pub open spec fn is_default(&self) -> bool {
        &&& self.visual == Visual::Message
        &&& self.color == Color::Base
        &&& self.size == DEFAULT_SIZE
        &&& self.args@ == Seq::<char>::empty()
        &&& self.metadata.spec_surface()@ == Seq::<char>::empty()
        &&& self.metadata.spec_target()@ == Seq::<char>::empty()
        &&& self.module_name is None
        &&& self.module_name_static is None
        &&& self.file is None
        &&& self.file_static is None
        &&& self.line is None
    }
}

impl<'a> View for Record<'a> {
    type V = RecordView<'a>;

    closed spec fn view(&self) -> RecordView<'a> {
        RecordView {
            metadata: self.metadata,
            visual: self.visual,
            color: self.color,
            size: self.size,
            args: self.args,
            module_name: opt_get(self.module_name),
            module_name_static: opt_static(self.module_name),
            file: opt_get(self.file),
            file_static: opt_static(self.file),
            line: self.line,
        }
    }
}

impl<'a> Record<'a> {
    /// Returns a new builder with the defaults of [`RecordBuilder::new`].
    pub fn builder() -> (r: RecordBuilder<'a>)
        ensures
            r@.is_default(),
    {
        RecordBuilder::new()
    }

    /// The message or label text.
    pub fn args(&self) -> (r: &'a str)
        ensures
            r == self@.args,
    {
        self.args
    }

    /// The visual element to draw.
    pub fn visual(&self) -> (r: &Visual)
        ensures
            *r == self@.visual,
    {
        &self.visual
    }

    /// The color of the visual element.
    pub fn color(&self) -> (r: &Color)
        ensures
            *r == self@.color,
    {
        &self.color
    }

    /// The size of the visual element, as `f64` bits.
    pub fn size(&self) -> (r: u64)
        ensures
            r == self@.size,
    {
        self.size
    }

    /// Metadata about the command.
    pub fn metadata(&self) -> (r: &Metadata<'a>)
        ensures
            *r == self@.metadata,
    {
        &self.metadata
    }

    /// The name of the target of the command.
    pub fn target(&self) -> (r: &'a str)
        ensures
            r == self@.metadata.spec_target(),
    {
        self.metadata.target()
    }

    /// The name of the surface of the command.
    pub fn surface(&self) -> (r: &'a str)
        ensures
            r == self@.metadata.spec_surface(),
    {
        self.metadata.surface()
    }

    /// The module path of the command.
    pub fn module_name(&self) -> (r: Option<&'a str>)
        ensures
            r == self@.module_name,
    {
        match self.module_name {
            Some(s) => Some(s.get()),
            None => None,
        }
    }

    /// The module path of the command, if it is a `'static` string.
    pub fn module_name_static(&self) -> (r: Option<&'static str>)
        ensures
            r == self@.module_name_static,
    {
        match self.module_name {
            Some(MaybeStaticStr::Static(s)) => Some(s),
            _ => None,
        }
    }

    /// The source file containing the command.
    pub fn file(&self) -> (r: Option<&'a str>)
        ensures
            r == self@.file,
    {
        match self.file {
            Some(s) => Some(s.get()),
            None => None,
        }
    }

    /// The source file containing the command, if it is a `'static` string.
    pub fn file_static(&self) -> (r: Option<&'static str>)
        ensures
            r == self@.file_static,
    {
        match self.file {
            Some(MaybeStaticStr::Static(s)) => Some(s),
            _ => None,
        }
    }

    /// The source line containing the command.
    pub fn line(&self) -> (r: Option<u32>)
        ensures
            r == self@.line,
    {
        self.line
    }
}

/// Builder for [`Record`].
#[derive(Debug)]
pub struct RecordBuilder<'a> {
    record: Record<'a>,
}

impl<'a> View for RecordBuilder<'a> {
    type V = RecordView<'a>;

    /// The view of the record that `build` returns.
    closed spec fn view(&self) -> RecordView<'a> {
        self.record@
    }
}

impl<'a> RecordBuilder<'a> {
    /// A builder holding a message visual, the base color, size `12.0`, empty
    /// text, empty metadata and no source location.
    pub fn new() -> (r: RecordBuilder<'a>)
        ensures
            r@.is_default(),
    {
        let empty: &'a str = "";
        proof {
            reveal_strlit("");
            assert(empty@ =~= Seq::<char>::empty());
        }
        RecordBuilder {
            record: Record {
                visual: Visual::Message,
                color: Color::Base,
                size: DEFAULT_SIZE,
                args: empty,
                metadata: Metadata::builder().build(),
                module_name: None,
                file: None,
                line: None,
            },
        }
    }

    /// Sets the visual.
    pub fn visual(&mut self, visual: Visual) -> (r: &mut RecordBuilder<'a>)
        ensures
            r@ == (RecordView { visual, ..old(self)@ }),
            *final(self) == *final(r),
    {
        self.record.visual = visual;
        self
    }

    /// Sets the color.
    pub fn color(&mut self, color: Color) -> (r: &mut RecordBuilder<'a>)
        ensures
            r@ == (RecordView { color, ..old(self)@ }),
            *final(self) == *final(r),
    {
        self.record.color = color;
        self
    }

    /// Sets the size (`f64` bits).
    pub fn size(&mut self, size: u64) -> (r: &mut RecordBuilder<'a>)
        ensures
            r@ == (RecordView { size, ..old(self)@ }),
            *final(self) == *final(r),
    {
        self.record.size = size;
        self
    }

    /// Sets the text.
    pub fn args(&mut self, args: &'a str) -> (r: &mut RecordBuilder<'a>)
        ensures
            r@ == (RecordView { args, ..old(self)@ }),
            *final(self) == *final(r),
    {
        self.record.args = args;
        self
    }

    /// Sets the metadata.
    pub fn metadata(&mut self, metadata: Metadata<'a>) -> (r: &mut RecordBuilder<'a>)
        ensures
            r@ == (RecordView { metadata, ..old(self)@ }),
            *final(self) == *final(r),
    {
        self.record.metadata = metadata;
        self
    }

    /// Sets the surface of the metadata, keeping its target.
    pub fn surface(&mut self, surface: &'a str) -> (r: &mut RecordBuilder<'a>)
        ensures
            r@.metadata.spec_surface() == surface,
            r@.metadata.spec_target()
                == old(self)@.metadata.spec_target(),
            r@ == (RecordView {
                metadata: r@.metadata,
                ..old(self)@
            }),
            *final(self) == *final(r),
    {
        let mut b = MetadataBuilder::new();
        let m = b.surface(surface).target(self.record.metadata.target()).build();
        self.record.metadata = m;
        self
    }

    /// Sets the target of the metadata, keeping its surface.
    pub fn target(&mut self, target: &'a str) -> (r: &mut RecordBuilder<'a>)
        ensures
            r@.metadata.spec_target() == target,
            r@.metadata.spec_surface()
                == old(self)@.metadata.spec_surface(),
            r@ == (RecordView {
                metadata: r@.metadata,
                ..old(self)@
            }),
            *final(self) == *final(r),
    {
        let mut b = MetadataBuilder::new();
        let m = b.surface(self.record.metadata.surface()).target(target).build();
        self.record.metadata = m;
        self
    }

    /// Sets the module path to a borrowed string.
    pub fn module_name(&mut self, path: Option<&'a str>) -> (r: &mut RecordBuilder<'a>)
        ensures
            r@.module_name == path,
            r@.module_name_static is None,
            r@ == (RecordView {
                module_name: r@.module_name,
                module_name_static: r@.module_name_static,
                ..old(self)@
            }),
            *final(self) == *final(r),
    {
        self.record.module_name = match path {
            Some(p) => Some(MaybeStaticStr::Borrowed(p)),
            None => None,
        };
        self
    }

    /// Sets the module path to a `'static` string.
    pub fn module_name_static(&mut self, path: Option<&'static str>) -> (r: &mut RecordBuilder<
        'a,
    >)
        ensures
            r@.module_name == path,
            r@.module_name_static == path,
            r@ == (RecordView {
                module_name: r@.module_name,
                module_name_static: r@.module_name_static,
                ..old(self)@
            }),
            *final(self) == *final(r),
    {
        self.record.module_name = match path {
            Some(p) => Some(MaybeStaticStr::Static(p)),
            None => None,
        };
        self
    }

    /// Sets the source file to a borrowed string.
    pub fn file(&mut self, file: Option<&'a str>) -> (r: &mut RecordBuilder<'a>)
        ensures
            r@.file == file,
            r@.file_static is None,
            r@ == (RecordView { file: r@.file, file_static: r@.file_static, ..old(self)@ }),
            *final(self) == *final(r),
    {
        self.record.file = match file {
            Some(f) => Some(MaybeStaticStr::Borrowed(f)),
            None => None,
        };
        self
    }

    /// Sets the source file to a `'static` string.
    pub fn file_static(&mut self, file: Option<&'static str>) -> (r: &mut RecordBuilder<'a>)
        ensures
            r@.file == file,
            r@.file_static == file,
            r@ == (RecordView { file: r@.file, file_static: r@.file_static, ..old(self)@ }),
            *final(self) == *final(r),
    {
        self.record.file = match file {
            Some(f) => Some(MaybeStaticStr::Static(f)),
            None => None,
        };
        self
    }

    /// Sets the source line.
    pub fn line(&mut self, line: Option<u32>) -> (r: &mut RecordBuilder<'a>)
        ensures
            r@ == (RecordView { line, ..old(self)@ }),
            *final(self) == *final(r),
    {
        self.record.line = line;
        self
    }

    /// Returns the record built so far.
    pub fn build(&self) -> (r: Record<'a>)
        ensures
            r@ == self@,
    {
        self.record
    }
}

impl<'a> Default for RecordBuilder<'a> {
    fn default() -> (r: RecordBuilder<'a>)
        ensures
            r@.is_default(),
    {
        RecordBuilder::new()
    }
}

} // verus!
