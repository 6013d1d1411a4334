//! The native function descriptor table.
//!
//! A single compile-time catalogue declares every native primitive the
//! bridge exposes to scripts: its exported name, its ordered parameter
//! kinds, and its return kind. Both the module registry (what to declare
//! and export) and the marshalling layer (how to coerce arguments) consume
//! this one table, so adding a primitive means adding exactly one entry.
//! The kind lists mirror the vendor SDK's actual signatures; keeping them
//! in lockstep with the device firmware's catalogue is a build-time
//! obligation, not a runtime check.

use vstd::prelude::*;
use vstd::string::StringExecFns;

verus! {

/// The kind of one native parameter.
#[derive(Clone, Copy, PartialEq, Eq, Structural, Debug)]
pub enum ParamKind {
    /// A signed 32-bit integer.
    Int,
    /// An unsigned 32-bit integer.
    Unsigned,
    /// A boolean.
    Boolean,
    /// An opaque machine address.
    Address,
}

/// The kind of a native return value.
#[derive(Clone, Copy, PartialEq, Eq, Structural, Debug)]
pub enum RetKind {
    /// The primitive returns no value.
    Nothing,
    /// A signed 32-bit integer.
    Int,
    /// An unsigned 32-bit integer.
    Unsigned,
    /// An opaque machine address.
    Address,
}

/// Every native primitive the bridge exposes, one variant per table entry.
#[derive(Clone, Copy, PartialEq, Eq, Structural, Debug)]
pub enum NativeFn {
    ForegroundColor,
    BackgroundColor,
    Erase,
    Scroll,
    ScrollRect,
    CopyRect,
    PixelSet,
    PixelClear,
    LineDraw,
    LineClear,
    RectDraw,
    RectClear,
    RectFill,
    CircleDraw,
    CircleClear,
    CircleFill,
    TextSize,
    FontNamedSet,
    ForegroundColorGet,
    BackgroundColorGet,
    StringWidthGet,
    StringHeightGet,
    ClipRegionSet,
    Render,
    DoubleBufferDisable,
    ClipRegionSetWithIndex,
    BmpRead,
    PngRead,
}

/// The name under which a primitive is exported to scripts.
pub open spec fn spec_name(f: NativeFn) -> Seq<char> {
    match f {
        NativeFn::ForegroundColor => "vexDisplayForegroundColor"@,
        NativeFn::BackgroundColor => "vexDisplayBackgroundColor"@,
        NativeFn::Erase => "vexDisplayErase"@,
        NativeFn::Scroll => "vexDisplayScroll"@,
        NativeFn::ScrollRect => "vexDisplayScrollRect"@,
        NativeFn::CopyRect => "vexDisplayCopyRect"@,
        NativeFn::PixelSet => "vexDisplayPixelSet"@,
        NativeFn::PixelClear => "vexDisplayPixelClear"@,
        NativeFn::LineDraw => "vexDisplayLineDraw"@,
        NativeFn::LineClear => "vexDisplayLineClear"@,
        NativeFn::RectDraw => "vexDisplayRectDraw"@,
        NativeFn::RectClear => "vexDisplayRectClear"@,
        NativeFn::RectFill => "vexDisplayRectFill"@,
        NativeFn::CircleDraw => "vexDisplayCircleDraw"@,
        NativeFn::CircleClear => "vexDisplayCircleClear"@,
        NativeFn::CircleFill => "vexDisplayCircleFill"@,
        NativeFn::TextSize => "vexDisplayTextSize"@,
        NativeFn::FontNamedSet => "vexDisplayFontNamedSet"@,
        NativeFn::ForegroundColorGet => "vexDisplayForegroundColorGet"@,
        NativeFn::BackgroundColorGet => "vexDisplayBackgroundColorGet"@,
        NativeFn::StringWidthGet => "vexDisplayStringWidthGet"@,
        NativeFn::StringHeightGet => "vexDisplayStringHeightGet"@,
        NativeFn::ClipRegionSet => "vexDisplayClipRegionSet"@,
        NativeFn::Render => "vexDisplayRender"@,
        NativeFn::DoubleBufferDisable => "vexDisplayDoubleBufferDisable"@,
        NativeFn::ClipRegionSetWithIndex => "vexDisplayClipRegionSetWithIndex"@,
        NativeFn::BmpRead => "vexImageBmpRead"@,
        NativeFn::PngRead => "vexImagePngRead"@,
    }
}

/// The ordered parameter kinds of a primitive.
pub open spec fn spec_params(f: NativeFn) -> Seq<ParamKind> {
    match f {
        NativeFn::ForegroundColor => seq![ParamKind::Unsigned],
        NativeFn::BackgroundColor => seq![ParamKind::Unsigned],
        NativeFn::Erase => Seq::empty(),
        NativeFn::Scroll => seq![ParamKind::Int, ParamKind::Int],
        NativeFn::ScrollRect => seq![
            ParamKind::Int,
            ParamKind::Int,
            ParamKind::Int,
            ParamKind::Int,
            ParamKind::Int,
        ],
        NativeFn::CopyRect => seq![
            ParamKind::Int,
            ParamKind::Int,
            ParamKind::Int,
            ParamKind::Int,
            ParamKind::Address,
            ParamKind::Int,
        ],
        NativeFn::PixelSet => seq![ParamKind::Unsigned, ParamKind::Unsigned],
        NativeFn::PixelClear => seq![ParamKind::Unsigned, ParamKind::Unsigned],
        NativeFn::LineDraw => seq![
            ParamKind::Int,
            ParamKind::Int,
            ParamKind::Int,
            ParamKind::Int,
        ],
        NativeFn::LineClear => seq![
            ParamKind::Int,
            ParamKind::Int,
            ParamKind::Int,
            ParamKind::Int,
        ],
        NativeFn::RectDraw => seq![
            ParamKind::Int,
            ParamKind::Int,
            ParamKind::Int,
            ParamKind::Int,
        ],
        NativeFn::RectClear => seq![
            ParamKind::Int,
            ParamKind::Int,
            ParamKind::Int,
            ParamKind::Int,
        ],
        NativeFn::RectFill => seq![
            ParamKind::Int,
            ParamKind::Int,
            ParamKind::Int,
            ParamKind::Int,
        ],
        NativeFn::CircleDraw => seq![ParamKind::Int, ParamKind::Int, ParamKind::Int],
        NativeFn::CircleClear => seq![ParamKind::Int, ParamKind::Int, ParamKind::Int],
        NativeFn::CircleFill => seq![ParamKind::Int, ParamKind::Int, ParamKind::Int],
        NativeFn::TextSize => seq![ParamKind::Unsigned, ParamKind::Unsigned],
        NativeFn::FontNamedSet => seq![ParamKind::Address],
        NativeFn::ForegroundColorGet => Seq::empty(),
        NativeFn::BackgroundColorGet => Seq::empty(),
        NativeFn::StringWidthGet => seq![ParamKind::Address],
        NativeFn::StringHeightGet => seq![ParamKind::Address],
        NativeFn::ClipRegionSet => seq![
            ParamKind::Int,
            ParamKind::Int,
            ParamKind::Int,
            ParamKind::Int,
        ],
        NativeFn::Render => seq![ParamKind::Boolean, ParamKind::Boolean],
        NativeFn::DoubleBufferDisable => Seq::empty(),
        NativeFn::ClipRegionSetWithIndex => seq![
            ParamKind::Int,
            ParamKind::Int,
            ParamKind::Int,
            ParamKind::Int,
            ParamKind::Int,
        ],
        NativeFn::BmpRead => seq![
            ParamKind::Address,
            ParamKind::Address,
            ParamKind::Unsigned,
            ParamKind::Unsigned,
        ],
        NativeFn::PngRead => seq![
            ParamKind::Address,
            ParamKind::Address,
            ParamKind::Unsigned,
            ParamKind::Unsigned,
            ParamKind::Unsigned,
        ],
    }
}

/// The return kind of a primitive.
pub open spec fn spec_ret(f: NativeFn) -> RetKind {
    match f {
        NativeFn::ForegroundColorGet => RetKind::Unsigned,
        NativeFn::BackgroundColorGet => RetKind::Unsigned,
        NativeFn::StringWidthGet => RetKind::Int,
        NativeFn::StringHeightGet => RetKind::Int,
        NativeFn::BmpRead => RetKind::Unsigned,
        NativeFn::PngRead => RetKind::Unsigned,
        _ => RetKind::Nothing,
    }
}

/// The catalogue: every table entry, in declaration order.
pub open spec fn spec_catalogue() -> Seq<NativeFn> {
    seq![
        NativeFn::ForegroundColor,
        NativeFn::BackgroundColor,
        NativeFn::Erase,
        NativeFn::Scroll,
        NativeFn::ScrollRect,
        NativeFn::CopyRect,
        NativeFn::PixelSet,
        NativeFn::PixelClear,
        NativeFn::LineDraw,
        NativeFn::LineClear,
        NativeFn::RectDraw,
        NativeFn::RectClear,
        NativeFn::RectFill,
        NativeFn::CircleDraw,
        NativeFn::CircleClear,
        NativeFn::CircleFill,
        NativeFn::TextSize,
        NativeFn::FontNamedSet,
        NativeFn::ForegroundColorGet,
        NativeFn::BackgroundColorGet,
        NativeFn::StringWidthGet,
        NativeFn::StringHeightGet,
        NativeFn::ClipRegionSet,
        NativeFn::Render,
        NativeFn::DoubleBufferDisable,
        NativeFn::ClipRegionSetWithIndex,
        NativeFn::BmpRead,
        NativeFn::PngRead,
    ]
}

/// The exported name of a primitive.
pub fn name_of(f: NativeFn) -> (r: &'static str)
    ensures
        r@ == spec_name(f),
{
    match f {
        NativeFn::ForegroundColor => "vexDisplayForegroundColor",
        NativeFn::BackgroundColor => "vexDisplayBackgroundColor",
        NativeFn::Erase => "vexDisplayErase",
        NativeFn::Scroll => "vexDisplayScroll",
        NativeFn::ScrollRect => "vexDisplayScrollRect",
        NativeFn::CopyRect => "vexDisplayCopyRect",
        NativeFn::PixelSet => "vexDisplayPixelSet",
        NativeFn::PixelClear => "vexDisplayPixelClear",
        NativeFn::LineDraw => "vexDisplayLineDraw",
        NativeFn::LineClear => "vexDisplayLineClear",
        NativeFn::RectDraw => "vexDisplayRectDraw",
        NativeFn::RectClear => "vexDisplayRectClear",
        NativeFn::RectFill => "vexDisplayRectFill",
        NativeFn::CircleDraw => "vexDisplayCircleDraw",
        NativeFn::CircleClear => "vexDisplayCircleClear",
        NativeFn::CircleFill => "vexDisplayCircleFill",
        NativeFn::TextSize => "vexDisplayTextSize",
        NativeFn::FontNamedSet => "vexDisplayFontNamedSet",
        NativeFn::ForegroundColorGet => "vexDisplayForegroundColorGet",
        NativeFn::BackgroundColorGet => "vexDisplayBackgroundColorGet",
        NativeFn::StringWidthGet => "vexDisplayStringWidthGet",
        NativeFn::StringHeightGet => "vexDisplayStringHeightGet",
        NativeFn::ClipRegionSet => "vexDisplayClipRegionSet",
        NativeFn::Render => "vexDisplayRender",
        NativeFn::DoubleBufferDisable => "vexDisplayDoubleBufferDisable",
        NativeFn::ClipRegionSetWithIndex => "vexDisplayClipRegionSetWithIndex",
        NativeFn::BmpRead => "vexImageBmpRead",
        NativeFn::PngRead => "vexImagePngRead",
    }
}

/// The ordered parameter kinds of a primitive.
pub fn params_of(f: NativeFn) -> (r: Vec<ParamKind>)
    ensures
        r@ == spec_params(f),
{
    let r: Vec<ParamKind> = match f {
        NativeFn::ForegroundColor => vec![ParamKind::Unsigned],
        NativeFn::BackgroundColor => vec![ParamKind::Unsigned],
        NativeFn::Erase => Vec::new(),
        NativeFn::Scroll => vec![ParamKind::Int, ParamKind::Int],
        NativeFn::ScrollRect => vec![
            ParamKind::Int,
            ParamKind::Int,
            ParamKind::Int,
            ParamKind::Int,
            ParamKind::Int,
        ],
        NativeFn::CopyRect => vec![
            ParamKind::Int,
            ParamKind::Int,
            ParamKind::Int,
            ParamKind::Int,
            ParamKind::Address,
            ParamKind::Int,
        ],
        NativeFn::PixelSet => vec![ParamKind::Unsigned, ParamKind::Unsigned],
        NativeFn::PixelClear => vec![ParamKind::Unsigned, ParamKind::Unsigned],
        NativeFn::LineDraw => vec![
            ParamKind::Int,
            ParamKind::Int,
            ParamKind::Int,
            ParamKind::Int,
        ],
        NativeFn::LineClear => vec![
            ParamKind::Int,
            ParamKind::Int,
            ParamKind::Int,
            ParamKind::Int,
        ],
        NativeFn::RectDraw => vec![
            ParamKind::Int,
            ParamKind::Int,
            ParamKind::Int,
            ParamKind::Int,
        ],
        NativeFn::RectClear => vec![
            ParamKind::Int,
            ParamKind::Int,
            ParamKind::Int,
            ParamKind::Int,
        ],
        NativeFn::RectFill => vec![
            ParamKind::Int,
            ParamKind::Int,
            ParamKind::Int,
            ParamKind::Int,
        ],
        NativeFn::CircleDraw => vec![ParamKind::Int, ParamKind::Int, ParamKind::Int],
        NativeFn::CircleClear => vec![ParamKind::Int, ParamKind::Int, ParamKind::Int],
        NativeFn::CircleFill => vec![ParamKind::Int, ParamKind::Int, ParamKind::Int],
        NativeFn::TextSize => vec![ParamKind::Unsigned, ParamKind::Unsigned],
        NativeFn::FontNamedSet => vec![ParamKind::Address],
        NativeFn::ForegroundColorGet => Vec::new(),
        NativeFn::BackgroundColorGet => Vec::new(),
        NativeFn::StringWidthGet => vec![ParamKind::Address],
        NativeFn::StringHeightGet => vec![ParamKind::Address],
        NativeFn::ClipRegionSet => vec![
            ParamKind::Int,
            ParamKind::Int,
            ParamKind::Int,
            ParamKind::Int,
        ],
        NativeFn::Render => vec![ParamKind::Boolean, ParamKind::Boolean],
        NativeFn::DoubleBufferDisable => Vec::new(),
        NativeFn::ClipRegionSetWithIndex => vec![
            ParamKind::Int,
            ParamKind::Int,
            ParamKind::Int,
            ParamKind::Int,
            ParamKind::Int,
        ],
        NativeFn::BmpRead => vec![
            ParamKind::Address,
            ParamKind::Address,
            ParamKind::Unsigned,
            ParamKind::Unsigned,
        ],
        NativeFn::PngRead => vec![
            ParamKind::Address,
            ParamKind::Address,
            ParamKind::Unsigned,
            ParamKind::Unsigned,
            ParamKind::Unsigned,
        ],
    };
    proof {
        assert(r@ =~= spec_params(f));
    }
    r
}

/// The return kind of a primitive.
pub fn ret_of(f: NativeFn) -> (r: RetKind)
    ensures
        r == spec_ret(f),
{
    match f {
        NativeFn::ForegroundColorGet => RetKind::Unsigned,
        NativeFn::BackgroundColorGet => RetKind::Unsigned,
        NativeFn::StringWidthGet => RetKind::Int,
        NativeFn::StringHeightGet => RetKind::Int,
        NativeFn::BmpRead => RetKind::Unsigned,
        NativeFn::PngRead => RetKind::Unsigned,
        _ => RetKind::Nothing,
    }
}

/// One native function descriptor: an immutable table entry, defined once
/// at build time. Its kind lists must exactly match the underlying native
/// function's calling convention; a mismatch is a build-time defect, not a
/// runtime one.
pub struct Descriptor {
    /// The exported name, unique within the registry.
    pub name: String,
    /// The ordered parameter kinds.
    pub params: Vec<ParamKind>,
    /// The return kind.
    pub ret: RetKind,
}

/// The full descriptor of one table entry.
pub fn descriptor_of(f: NativeFn) -> (d: Descriptor)
    ensures
        d.name@ == spec_name(f),
        d.params@ == spec_params(f),
        d.ret == spec_ret(f),
{
    Descriptor { name: String::from_str(name_of(f)), params: params_of(f), ret: ret_of(f) }
}

/// Name-uniqueness invariant of the table: no two entries share an
/// exported name, so a name identifies its native entry point.
#[verifier::rlimit(60)]
pub proof fn lemma_names_unique(f: NativeFn, g: NativeFn)
    requires
        spec_name(f) == spec_name(g),
    ensures
        f == g,
{
    reveal_strlit("vexDisplayForegroundColor");
    reveal_strlit("vexDisplayBackgroundColor");
    reveal_strlit("vexDisplayErase");
    reveal_strlit("vexDisplayScroll");
    reveal_strlit("vexDisplayScrollRect");
    reveal_strlit("vexDisplayCopyRect");
    reveal_strlit("vexDisplayPixelSet");
    reveal_strlit("vexDisplayPixelClear");
    reveal_strlit("vexDisplayLineDraw");
    reveal_strlit("vexDisplayLineClear");
    reveal_strlit("vexDisplayRectDraw");
    reveal_strlit("vexDisplayRectClear");
    reveal_strlit("vexDisplayRectFill");
    reveal_strlit("vexDisplayCircleDraw");
    reveal_strlit("vexDisplayCircleClear");
    reveal_strlit("vexDisplayCircleFill");
    reveal_strlit("vexDisplayTextSize");
    reveal_strlit("vexDisplayFontNamedSet");
    reveal_strlit("vexDisplayForegroundColorGet");
    reveal_strlit("vexDisplayBackgroundColorGet");
    reveal_strlit("vexDisplayStringWidthGet");
    reveal_strlit("vexDisplayStringHeightGet");
    reveal_strlit("vexDisplayClipRegionSet");
    reveal_strlit("vexDisplayRender");
    reveal_strlit("vexDisplayDoubleBufferDisable");
    reveal_strlit("vexDisplayClipRegionSetWithIndex");
    reveal_strlit("vexImageBmpRead");
    reveal_strlit("vexImagePngRead");
    // Names of different length are told apart by their lengths alone.
    assert(spec_name(NativeFn::ForegroundColor).len() == 25);
    assert(spec_name(NativeFn::BackgroundColor).len() == 25);
    assert(spec_name(NativeFn::Erase).len() == 15);
    assert(spec_name(NativeFn::Scroll).len() == 16);
    assert(spec_name(NativeFn::ScrollRect).len() == 20);
    assert(spec_name(NativeFn::CopyRect).len() == 18);
    assert(spec_name(NativeFn::PixelSet).len() == 18);
    assert(spec_name(NativeFn::PixelClear).len() == 20);
    assert(spec_name(NativeFn::LineDraw).len() == 18);
    assert(spec_name(NativeFn::LineClear).len() == 19);
    assert(spec_name(NativeFn::RectDraw).len() == 18);
    assert(spec_name(NativeFn::RectClear).len() == 19);
    assert(spec_name(NativeFn::RectFill).len() == 18);
    assert(spec_name(NativeFn::CircleDraw).len() == 20);
    assert(spec_name(NativeFn::CircleClear).len() == 21);
    assert(spec_name(NativeFn::CircleFill).len() == 20);
    assert(spec_name(NativeFn::TextSize).len() == 18);
    assert(spec_name(NativeFn::FontNamedSet).len() == 22);
    assert(spec_name(NativeFn::ForegroundColorGet).len() == 28);
    assert(spec_name(NativeFn::BackgroundColorGet).len() == 28);
    assert(spec_name(NativeFn::StringWidthGet).len() == 24);
    assert(spec_name(NativeFn::StringHeightGet).len() == 25);
    assert(spec_name(NativeFn::ClipRegionSet).len() == 23);
    assert(spec_name(NativeFn::Render).len() == 16);
    assert(spec_name(NativeFn::DoubleBufferDisable).len() == 29);
    assert(spec_name(NativeFn::ClipRegionSetWithIndex).len() == 32);
    assert(spec_name(NativeFn::BmpRead).len() == 15);
    assert(spec_name(NativeFn::PngRead).len() == 15);
    // Names of equal length are told apart by a character each: the first
    // letter after the "vexDisplay" prefix where it decides, a later one
    // where the stems agree.
    assert(spec_name(NativeFn::ForegroundColor)[10] == 'F');
    assert(spec_name(NativeFn::BackgroundColor)[10] == 'B');
    assert(spec_name(NativeFn::StringHeightGet)[10] == 'S');
    assert(spec_name(NativeFn::Erase)[3] == 'D');
    assert(spec_name(NativeFn::BmpRead)[3] == 'I');
    assert(spec_name(NativeFn::PngRead)[3] == 'I');
    assert(spec_name(NativeFn::BmpRead)[8] == 'B');
    assert(spec_name(NativeFn::PngRead)[8] == 'P');
    assert(spec_name(NativeFn::Scroll)[10] == 'S');
    assert(spec_name(NativeFn::Render)[10] == 'R');
    assert(spec_name(NativeFn::ScrollRect)[10] == 'S');
    assert(spec_name(NativeFn::PixelClear)[10] == 'P');
    assert(spec_name(NativeFn::CircleDraw)[10] == 'C');
    assert(spec_name(NativeFn::CircleFill)[10] == 'C');
    assert(spec_name(NativeFn::CircleDraw)[16] == 'D');
    assert(spec_name(NativeFn::CircleFill)[16] == 'F');
    assert(spec_name(NativeFn::CopyRect)[10] == 'C');
    assert(spec_name(NativeFn::PixelSet)[10] == 'P');
    assert(spec_name(NativeFn::LineDraw)[10] == 'L');
    assert(spec_name(NativeFn::RectDraw)[10] == 'R');
    assert(spec_name(NativeFn::RectFill)[10] == 'R');
    assert(spec_name(NativeFn::TextSize)[10] == 'T');
    assert(spec_name(NativeFn::RectDraw)[14] == 'D');
    assert(spec_name(NativeFn::RectFill)[14] == 'F');
    assert(spec_name(NativeFn::LineClear)[10] == 'L');
    assert(spec_name(NativeFn::RectClear)[10] == 'R');
    assert(spec_name(NativeFn::ForegroundColorGet)[10] == 'F');
    assert(spec_name(NativeFn::BackgroundColorGet)[10] == 'B');
}

/// The catalogue as an executable list, in declaration order.
pub fn catalogue() -> (r: Vec<NativeFn>)
    ensures
        r@ == spec_catalogue(),
{
    let r: Vec<NativeFn> = vec![
        NativeFn::ForegroundColor,
        NativeFn::BackgroundColor,
        NativeFn::Erase,
        NativeFn::Scroll,
        NativeFn::ScrollRect,
        NativeFn::CopyRect,
        NativeFn::PixelSet,
        NativeFn::PixelClear,
        NativeFn::LineDraw,
        NativeFn::LineClear,
        NativeFn::RectDraw,
        NativeFn::RectClear,
        NativeFn::RectFill,
        NativeFn::CircleDraw,
        NativeFn::CircleClear,
        NativeFn::CircleFill,
        NativeFn::TextSize,
        NativeFn::FontNamedSet,
        NativeFn::ForegroundColorGet,
        NativeFn::BackgroundColorGet,
        NativeFn::StringWidthGet,
        NativeFn::StringHeightGet,
        NativeFn::ClipRegionSet,
        NativeFn::Render,
        NativeFn::DoubleBufferDisable,
        NativeFn::ClipRegionSetWithIndex,
        NativeFn::BmpRead,
        NativeFn::PngRead,
    ];
    proof {
        assert(r@ =~= spec_catalogue());
    }
    r
}

} // verus!
