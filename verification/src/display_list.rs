//! Representations of display list commands.

pub mod options;
pub mod shape_builder;

use crate::graphics::{ScissorPos, ScissorRect, Vertex2F, Vertex2II, RGB, RGBA};
use crate::memory::{DisplayListMem, MainMem, Ptr, RegionLayout};
use crate::models::Model;
use crate::graphics::Bitmap;
use vstd::prelude::*;
use vstd::std_specs::convert::{FromSpecImpl, IntoSpec};
use options::MatrixCoeff;

verus! {

/// Represents an EVE display list command.
///
/// Each command is encoded as a four-byte word, as it would be written into
/// display list memory (endianness notwithstanding): the operation code in
/// the most significant byte, its arguments in the bits below.
#[derive(Copy, Clone, PartialEq, Eq, Debug)]
pub struct DLCmd(pub(crate) u32);

impl View for DLCmd {
    type V = u32;

    /// The raw command word.
    closed spec fn view(&self) -> u32 {
        self.0
    }
}

/// Each command is encoded as a four-byte value. Converting to `u32` returns
/// the raw encoding of the command, as it would be written into display
/// list memory (endianness notwithstanding).
impl From<DLCmd> for u32 {
    fn from(cmd: DLCmd) -> (r: u32) {
        cmd.0
    }
}

impl FromSpecImpl<DLCmd> for u32 {
    open spec fn obeys_from_spec() -> bool {
        true
    }

    open spec fn from_spec(cmd: DLCmd) -> u32 {
        cmd@
    }
}

/// A command word: the operation code in the most significant byte, the
/// argument bits below it.
pub open spec fn dl_word(op: u32, v: u32) -> u32 {
    op << 24 | v
}

/// A command word holds its operation code in the most significant byte and
/// its argument bits, unchanged, in the bits below, for every argument that
/// fits in 24 bits.
pub proof fn lemma_dl_word_fields(op: u32, v: u32)
    requires
        op < 0x100,
        v < 0x100_0000,
    ensures
        dl_word(op, v) >> 24 == op,
        dl_word(op, v) & 0xff_ffff == v,
{
    assert((op << 24 | v) >> 24 == op && (op << 24 | v) & 0xff_ffff == v) by (bit_vector)
        requires
            op < 0x100,
            v < 0x100_0000,
    ;
}

/// The encoding of the `ALPHA_FUNC` command made by `DLCmd::alpha_test`.
pub open spec fn spec_alpha_test(func: options::TestFunc, ref_val: u8) -> u32 {
    dl_word(0x9, (func.spec_raw() as u32) << 8 | (ref_val as u32))
}

/// The encoding of the `BEGIN` command made by `DLCmd::begin`.
pub open spec fn spec_begin(prim: options::GraphicsPrimitive) -> u32 {
    dl_word(0x1f, prim.spec_raw() as u32)
}

/// The encoding of the `CELL` command made by `DLCmd::bitmap_cell`.
pub open spec fn spec_bitmap_cell(idx: u8) -> u32 {
    dl_word(0x6, (idx & 0x3f) as u32)
}

/// The encoding of the `BITMAP_EXT_FORMAT` command made by `DLCmd::bitmap_ext_format`.
pub open spec fn spec_bitmap_ext_format(format: options::BitmapExtFormat) -> u32 {
    dl_word(0x2e, format.spec_raw() as u32)
}

/// The encoding of the `BITMAP_HANDLE` command made by `DLCmd::bitmap_handle`.
pub open spec fn spec_bitmap_handle(bmp: options::BitmapHandle) -> u32 {
    dl_word(0x5, bmp@ as u32)
}

/// The encoding of the `BITMAP_LAYOUT` command made by `DLCmd::bitmap_layout_l`.
pub open spec fn spec_bitmap_layout_l(format: options::BitmapFormat, line_stride: u16, height: u16) -> u32 {
    dl_word(0x7, (format.spec_raw() as u32) << 19 | ((line_stride as u32) & 0x3ff) << 9 | ((height as u32) & 0x1ff))
}

/// The encoding of the `BITMAP_LAYOUT_H` command made by `DLCmd::bitmap_layout_h`.
pub open spec fn spec_bitmap_layout_h(line_stride: u16, height: u16) -> u32 {
    dl_word(0x28, ((line_stride as u32) >> 10) << 2 | ((height as u32) >> 10))
}

/// The encoding of the `BITMAP_SIZE` command made by `DLCmd::bitmap_size_l`.
pub open spec fn spec_bitmap_size_l(width: u16, height: u16, filter: options::BitmapSizeFilter, wrap_x: options::BitmapWrapMode, wrap_y: options::BitmapWrapMode) -> u32 {
    dl_word(0x8, (filter.spec_raw() as u32) << 20 | (wrap_x.spec_raw() as u32) << 19 | (wrap_y.spec_raw() as u32) << 18 | ((physical_dim(width) as u32) & 0x1ff) << 9 | ((physical_dim(height) as u32) & 0x1ff))
}

/// The encoding of the `BITMAP_SIZE_H` command made by `DLCmd::bitmap_size_h`.
pub open spec fn spec_bitmap_size_h(width: u16, height: u16) -> u32 {
    dl_word(0x29, (((physical_dim(width) as u32) >> 9) & 3) << 2 | (((physical_dim(height) as u32) >> 9) & 3))
}

/// The encoding of the `BITMAP_SWIZZLE` command made by `DLCmd::bitmap_swizzle`.
pub open spec fn spec_bitmap_swizzle(swizzle: options::BitmapSwizzle) -> u32 {
    dl_word(0x2f, swizzle.spec_raw())
}

/// The encoding of the `BLEND_FUNC` command made by `DLCmd::blend_func`.
pub open spec fn spec_blend_func(src: options::BlendFunc, dst: options::BlendFunc) -> u32 {
    dl_word(0xb, (src.spec_raw() as u32) << 3 | (dst.spec_raw() as u32))
}

/// The encoding of the `CLEAR` command made by `DLCmd::clear`.
pub open spec fn spec_clear(color: bool, stencil: bool, tag: bool) -> u32 {
    dl_word(0x26, (if color { 4u32 } else { 0u32 }) | (if stencil { 2u32 } else { 0u32 }) | (if tag { 1u32 } else { 0u32 }))
}

/// The encoding of the `CLEAR_COLOR_RGB` command made by `DLCmd::clear_color_rgb`.
pub open spec fn spec_clear_color_rgb(color: RGB) -> u32 {
    dl_word(0x2, (color.r as u32) << 16 | (color.g as u32) << 8 | (color.b as u32))
}

/// The encoding of the `CLEAR_COLOR_A` command made by `DLCmd::clear_color_alpha`.
pub open spec fn spec_clear_color_alpha(alpha: u8) -> u32 {
    dl_word(0xf, alpha as u32)
}

/// The encoding of the `CLEAR_STENCIL` command made by `DLCmd::clear_stencil`.
pub open spec fn spec_clear_stencil(v: u8) -> u32 {
    dl_word(0x11, v as u32)
}

/// The encoding of the `CLEAR_TAG` command made by `DLCmd::clear_tag`.
pub open spec fn spec_clear_tag(v: u8) -> u32 {
    dl_word(0x12, v as u32)
}

/// The encoding of the `COLOR_A` command made by `DLCmd::color_alpha`.
pub open spec fn spec_color_alpha(alpha: u8) -> u32 {
    dl_word(0x10, alpha as u32)
}

/// The encoding of the `COLOR_MASK` command made by `DLCmd::color_mask`.
pub open spec fn spec_color_mask(mask: options::ColorMask) -> u32 {
    dl_word(0x20, mask@ as u32)
}

/// The encoding of the `COLOR_RGB` command made by `DLCmd::color_rgb`.
pub open spec fn spec_color_rgb(color: RGB) -> u32 {
    dl_word(0x4, (color.r as u32) << 16 | (color.g as u32) << 8 | (color.b as u32))
}

/// The encoding of the `DISPLAY` command made by `DLCmd::display`.
pub open spec fn spec_display() -> u32 {
    dl_word(0x0, 0u32)
}

/// The encoding of the `END` command made by `DLCmd::end`.
pub open spec fn spec_end() -> u32 {
    dl_word(0x21, 0u32)
}

/// The encoding of the `MACRO` command made by `DLCmd::command_from_macro`.
pub open spec fn spec_command_from_macro(num: u8) -> u32 {
    dl_word(0x25, (num as u32) & 1)
}

/// The encoding of the `LINE_WIDTH` command made by `DLCmd::line_width`.
pub open spec fn spec_line_width(w: u16) -> u32 {
    dl_word(0xe, (w & 0xfff) as u32)
}

/// The encoding of the `NOP` command made by `DLCmd::nop`.
pub open spec fn spec_nop() -> u32 {
    dl_word(0x2d, 0u32)
}

/// The encoding of the `POINT_SIZE` command made by `DLCmd::point_size`.
pub open spec fn spec_point_size(size: u16) -> u32 {
    dl_word(0xd, (size as u32) & 0xfff)
}

/// The encoding of the `RESTORE_CONTEXT` command made by `DLCmd::restore_context`.
pub open spec fn spec_restore_context() -> u32 {
    dl_word(0x23, 0u32)
}

/// The encoding of the `RETURN` command made by `DLCmd::return_from_call`.
pub open spec fn spec_return_from_call() -> u32 {
    dl_word(0x24, 0u32)
}

/// The encoding of the `SAVE_CONTEXT` command made by `DLCmd::save_context`.
pub open spec fn spec_save_context() -> u32 {
    dl_word(0x22, 0u32)
}

/// The encoding of the `SCISSOR_SIZE` command made by `DLCmd::scissor_size`.
pub open spec fn spec_scissor_size(dims: (u16, u16)) -> u32 {
    dl_word(0x1c, ((dims.0 as u32) & 0xfff) << 12 | ((dims.1 as u32) & 0xfff))
}

/// The encoding of the `STENCIL_FUNC` command made by `DLCmd::stencil_test`.
pub open spec fn spec_stencil_test(func: options::TestFunc, ref_val: u8, mask: u8) -> u32 {
    dl_word(0xa, (func.spec_raw() as u32) << 16 | (ref_val as u32) << 8 | (mask as u32))
}

/// The encoding of the `STENCIL_MASK` command made by `DLCmd::stencil_mask`.
pub open spec fn spec_stencil_mask(mask: u8) -> u32 {
    dl_word(0x13, mask as u32)
}

/// The encoding of the `STENCIL_OP` command made by `DLCmd::stencil_op`.
pub open spec fn spec_stencil_op(fail: options::StencilOp, pass: options::StencilOp) -> u32 {
    dl_word(0xc, (fail.spec_raw() as u32) << 3 | (pass.spec_raw() as u32))
}

/// The encoding of the `TAG` command made by `DLCmd::tag`.
pub open spec fn spec_tag(v: u8) -> u32 {
    dl_word(0x3, v as u32)
}

/// The encoding of the `TAG_MASK` command made by `DLCmd::tag_mask`.
pub open spec fn spec_tag_mask(update: bool) -> u32 {
    dl_word(0x14, if update { 1u32 } else { 0u32 })
}

/// The encoding of the `VERTEX_FORMAT` command made by `DLCmd::vertex_format`.
pub open spec fn spec_vertex_format(fmt: options::VertexFormat) -> u32 {
    dl_word(0x27, fmt.spec_raw() as u32)
}

/// The encoding of the `VERTEX_TRANSLATE_X` command made by `DLCmd::vertex_translate_x`.
pub open spec fn spec_vertex_translate_x(v: i16) -> u32 {
    dl_word(0x2b, v as u16 as u32)
}

/// The encoding of the `VERTEX_TRANSLATE_Y` command made by `DLCmd::vertex_translate_y`.
pub open spec fn spec_vertex_translate_y(v: i16) -> u32 {
    dl_word(0x2c, v as u16 as u32)
}

/// The encoding of the `BITMAP_SOURCE` command for the given address.
pub open spec fn spec_bitmap_source(addr: u32) -> u32 {
    dl_word(0x01, addr)
}

/// The encoding of one of the `BITMAP_TRANSFORM_A` to `_F` commands, whose
/// opcodes run from `0x15` to `0x1a`, for the given coefficient.
pub open spec fn spec_bitmap_transform(op: u32, coeff: MatrixCoeff) -> u32 {
    dl_word(op, coeff@)
}

/// The encoding of the `CALL` command for the given offset into display list
/// memory.
pub open spec fn spec_call(offset: u32) -> u32 {
    dl_word(0x1d, offset)
}

/// The encoding of the `JUMP` command for the given offset into display list
/// memory.
pub open spec fn spec_jump(offset: u32) -> u32 {
    dl_word(0x1e, offset)
}

/// The encoding of the `PALETTE_SOURCE` command for the given address.
pub open spec fn spec_palette_source(addr: u32) -> u32 {
    dl_word(0x2a, addr)
}

/// The encoding of the `SCISSOR_XY` command: ten bits for each coordinate.
pub open spec fn spec_scissor_pos(pos: ScissorPos) -> u32 {
    dl_word(0x1b, ((pos.spec_x() as u32) & 0x3ff) << 10 | ((pos.spec_y() as u32) & 0x3ff))
}

/// The encoding of the `VERTEX2F` command, whose two-bit opcode `0b01` sits
/// in the top bits: x from bit 15, y from bit 0.
pub open spec fn spec_vertex_2f(pos: Vertex2F) -> u32 {
    dl_word(0x40, (pos.spec_x() as u32) << 15 | (pos.spec_y() as u32))
}

/// The encoding of the `VERTEX2II` command, whose two-bit opcode `0b10` sits
/// in the top bits: x from bit 21, y from bit 12.
pub open spec fn spec_vertex_2ii(pos: Vertex2II) -> u32 {
    dl_word(0x80, (pos.spec_x() as u32) << 21 | (pos.spec_y() as u32) << 12)
}

/// A bitmap dimension as the bitmap size commands take it: 2048 and above
/// wrap to zero, which the hardware reads as 2048.
pub open spec fn physical_dim(d: u16) -> u16 {
    if d < 2048 {
        d
    } else {
        0
    }
}

/// The operation codes of the display list commands, which occupy the most
/// significant byte of a command word.
#[derive(Clone, Copy, PartialEq, Eq)]
#[allow(non_camel_case_types)]
enum OpCode {
    ALPHA_FUNC,
    BEGIN,
    BITMAP_EXT_FORMAT,
    BITMAP_HANDLE,
    BITMAP_LAYOUT,
    BITMAP_LAYOUT_H,
    BITMAP_SIZE,
    BITMAP_SIZE_H,
    BITMAP_SOURCE,
    BITMAP_SWIZZLE,
    BITMAP_TRANSFORM_A,
    BITMAP_TRANSFORM_B,
    BITMAP_TRANSFORM_C,
    BITMAP_TRANSFORM_D,
    BITMAP_TRANSFORM_E,
    BITMAP_TRANSFORM_F,
    BLEND_FUNC,
    CALL,
    CELL,
    CLEAR,
    CLEAR_COLOR_RGB,
    CLEAR_COLOR_A,
    CLEAR_STENCIL,
    CLEAR_TAG,
    COLOR_A,
    COLOR_MASK,
    COLOR_RGB,
    DISPLAY,
    END,
    JUMP,
    LINE_WIDTH,
    MACRO,
    NOP,
    PALETTE_SOURCE,
    POINT_SIZE,
    RESTORE_CONTEXT,
    RETURN,
    SAVE_CONTEXT,
    SCISSOR_SIZE,
    SCISSOR_XY,
    STENCIL_FUNC,
    STENCIL_MASK,
    STENCIL_OP,
    TAG,
    TAG_MASK,
    VERTEX2F,
    VERTEX2II,
    VERTEX_FORMAT,
    VERTEX_TRANSLATE_X,
    VERTEX_TRANSLATE_Y,
}

impl OpCode {
    spec fn spec_raw(self) -> u8 {
        match self {
            OpCode::ALPHA_FUNC => 0x9,
            OpCode::BEGIN => 0x1f,
            OpCode::BITMAP_EXT_FORMAT => 0x2e,
            OpCode::BITMAP_HANDLE => 0x5,
            OpCode::BITMAP_LAYOUT => 0x7,
            OpCode::BITMAP_LAYOUT_H => 0x28,
            OpCode::BITMAP_SIZE => 0x8,
            OpCode::BITMAP_SIZE_H => 0x29,
            OpCode::BITMAP_SOURCE => 0x1,
            OpCode::BITMAP_SWIZZLE => 0x2f,
            OpCode::BITMAP_TRANSFORM_A => 0x15,
            OpCode::BITMAP_TRANSFORM_B => 0x16,
            OpCode::BITMAP_TRANSFORM_C => 0x17,
            OpCode::BITMAP_TRANSFORM_D => 0x18,
            OpCode::BITMAP_TRANSFORM_E => 0x19,
            OpCode::BITMAP_TRANSFORM_F => 0x1a,
            OpCode::BLEND_FUNC => 0xb,
            OpCode::CALL => 0x1d,
            OpCode::CELL => 0x6,
            OpCode::CLEAR => 0x26,
            OpCode::CLEAR_COLOR_RGB => 0x2,
            OpCode::CLEAR_COLOR_A => 0xf,
            OpCode::CLEAR_STENCIL => 0x11,
            OpCode::CLEAR_TAG => 0x12,
            OpCode::COLOR_A => 0x10,
            OpCode::COLOR_MASK => 0x20,
            OpCode::COLOR_RGB => 0x4,
            OpCode::DISPLAY => 0x0,
            OpCode::END => 0x21,
            OpCode::JUMP => 0x1e,
            OpCode::LINE_WIDTH => 0xe,
            OpCode::MACRO => 0x25,
            OpCode::NOP => 0x2d,
            OpCode::PALETTE_SOURCE => 0x2a,
            OpCode::POINT_SIZE => 0xd,
            OpCode::RESTORE_CONTEXT => 0x23,
            OpCode::RETURN => 0x24,
            OpCode::SAVE_CONTEXT => 0x22,
            OpCode::SCISSOR_SIZE => 0x1c,
            OpCode::SCISSOR_XY => 0x1b,
            OpCode::STENCIL_FUNC => 0xa,
            OpCode::STENCIL_MASK => 0x13,
            OpCode::STENCIL_OP => 0xc,
            OpCode::TAG => 0x3,
            OpCode::TAG_MASK => 0x14,
            OpCode::VERTEX2F => 0x40,
            OpCode::VERTEX2II => 0x80,
            OpCode::VERTEX_FORMAT => 0x27,
            OpCode::VERTEX_TRANSLATE_X => 0x2b,
            OpCode::VERTEX_TRANSLATE_Y => 0x2c,
        }
    }

    fn to_raw(self) -> (r: u8)
        ensures
            r == self.spec_raw(),
    {
        match self {
            OpCode::ALPHA_FUNC => 0x9,
            OpCode::BEGIN => 0x1f,
            OpCode::BITMAP_EXT_FORMAT => 0x2e,
            OpCode::BITMAP_HANDLE => 0x5,
            OpCode::BITMAP_LAYOUT => 0x7,
            OpCode::BITMAP_LAYOUT_H => 0x28,
            OpCode::BITMAP_SIZE => 0x8,
            OpCode::BITMAP_SIZE_H => 0x29,
            OpCode::BITMAP_SOURCE => 0x1,
            OpCode::BITMAP_SWIZZLE => 0x2f,
            OpCode::BITMAP_TRANSFORM_A => 0x15,
            OpCode::BITMAP_TRANSFORM_B => 0x16,
            OpCode::BITMAP_TRANSFORM_C => 0x17,
            OpCode::BITMAP_TRANSFORM_D => 0x18,
            OpCode::BITMAP_TRANSFORM_E => 0x19,
            OpCode::BITMAP_TRANSFORM_F => 0x1a,
            OpCode::BLEND_FUNC => 0xb,
            OpCode::CALL => 0x1d,
            OpCode::CELL => 0x6,
            OpCode::CLEAR => 0x26,
            OpCode::CLEAR_COLOR_RGB => 0x2,
            OpCode::CLEAR_COLOR_A => 0xf,
            OpCode::CLEAR_STENCIL => 0x11,
            OpCode::CLEAR_TAG => 0x12,
            OpCode::COLOR_A => 0x10,
            OpCode::COLOR_MASK => 0x20,
            OpCode::COLOR_RGB => 0x4,
            OpCode::DISPLAY => 0x0,
            OpCode::END => 0x21,
            OpCode::JUMP => 0x1e,
            OpCode::LINE_WIDTH => 0xe,
            OpCode::MACRO => 0x25,
            OpCode::NOP => 0x2d,
            OpCode::PALETTE_SOURCE => 0x2a,
            OpCode::POINT_SIZE => 0xd,
            OpCode::RESTORE_CONTEXT => 0x23,
            OpCode::RETURN => 0x24,
            OpCode::SAVE_CONTEXT => 0x22,
            OpCode::SCISSOR_SIZE => 0x1c,
            OpCode::SCISSOR_XY => 0x1b,
            OpCode::STENCIL_FUNC => 0xa,
            OpCode::STENCIL_MASK => 0x13,
            OpCode::STENCIL_OP => 0xc,
            OpCode::TAG => 0x3,
            OpCode::TAG_MASK => 0x14,
            OpCode::VERTEX2F => 0x40,
            OpCode::VERTEX2II => 0x80,
            OpCode::VERTEX_FORMAT => 0x27,
            OpCode::VERTEX_TRANSLATE_X => 0x2b,
            OpCode::VERTEX_TRANSLATE_Y => 0x2c,
        }
    }

    /// The opcode in its place in the most significant byte.
    fn shift(self) -> (r: u32)
        ensures
            r == (self.spec_raw() as u32) << 24,
    {
        (self.to_raw() as u32) << 24
    }

    /// The command made of this opcode and the argument bits `v`.
    fn build(self, v: u32) -> (r: DLCmd)
        ensures
            r@ == dl_word(self.spec_raw() as u32, v),
    {
        DLCmd::from_raw(self.shift() | v)
    }
}

impl DLCmd {
    /// The length of a display list command as stored in the EVE device's
    /// display list RAM.
    pub const LENGTH: u32 = 4;

    /// Creates a command from the raw command word. It's the caller's
    /// responsibility to ensure that it's a valid encoding of a real display
    /// list command.
    pub fn from_raw(raw: u32) -> (r: Self)
        ensures
            r@ == raw,
    {
        DLCmd(raw)
    }

    /// Two commands are equal exactly when their raw words are.
    pub proof fn lemma_eq_raw(a: DLCmd, b: DLCmd)
        ensures
            a == b <==> a@ == b@,
    {
    }

    pub fn as_raw(&self) -> (r: u32)
        ensures
            r == self@,
    {
        self.0
    }

    /// The command that `from_raw(raw)` makes.
    pub closed spec fn spec_from_raw(raw: u32) -> Self {
        DLCmd(raw)
    }

    pub proof fn lemma_spec_from_raw(raw: u32)
        ensures
            Self::spec_from_raw(raw)@ == raw,
    {
    }

    /// `bitmap_layout_l` and `bitmap_layout_h` with the same values, which
    /// together set all of the bits of the `line_stride` and `height`
    /// fields. Write the two commands to consecutive positions in the display
    /// list.
    pub fn bitmap_layout_pair(format: options::BitmapFormat, line_stride: u16, height: u16) -> (r: (Self, Self))
        ensures
            r.0@ == spec_bitmap_layout_l(format, line_stride, height),
            r.1@ == spec_bitmap_layout_h(line_stride, height),
    {
        (Self::bitmap_layout_l(format, line_stride, height), Self::bitmap_layout_h(line_stride, height))
    }

    fn physical_bitmap_size(width: u16, height: u16) -> (r: (u16, u16))
        ensures
            r == (physical_dim(width), physical_dim(height)),
    {
        (
            if width < 2048 {
                width
            } else {
                0
            },
            if height < 2048 {
                height
            } else {
                0
            },
        )
    }

    pub fn bitmap_size_l(
        width: u16,
        height: u16,
        filter: options::BitmapSizeFilter,
        wrap_x: options::BitmapWrapMode,
        wrap_y: options::BitmapWrapMode,
    ) -> (r: Self)
        ensures
            r@ == spec_bitmap_size_l(width, height, filter, wrap_x, wrap_y),
    {
        let (p_width, p_height) = Self::physical_bitmap_size(width, height);
        OpCode::BITMAP_SIZE.build(
            (filter.to_raw() as u32) << 20 | (wrap_x.to_raw() as u32) << 19 | (wrap_y.to_raw() as u32) << 18
                | (p_width as u32 & 0b111111111) << 9 | (p_height as u32 & 0b111111111),
        )
    }

    pub fn bitmap_size_h(width: u16, height: u16) -> (r: Self)
        ensures
            r@ == spec_bitmap_size_h(width, height),
    {
        let (p_width, p_height) = Self::physical_bitmap_size(width, height);
        let p_width = ((p_width as u32) >> 9) & 0b11;
        let p_height = ((p_height as u32) >> 9) & 0b11;
        OpCode::BITMAP_SIZE_H.build(p_width << 2 | p_height)
    }

    /// `bitmap_size_l` and `bitmap_size_h` with the same values, which
    /// together set all of the bits of the `width` and `height` fields.
    pub fn bitmap_size_pair(
        width: u16,
        height: u16,
        filter: options::BitmapSizeFilter,
        wrap_x: options::BitmapWrapMode,
        wrap_y: options::BitmapWrapMode,
    ) -> (r: (Self, Self))
        ensures
            r.0@ == spec_bitmap_size_l(width, height, filter, wrap_x, wrap_y),
            r.1@ == spec_bitmap_size_h(width, height),
    {
        (Self::bitmap_size_l(width, height, filter, wrap_x, wrap_y), Self::bitmap_size_h(width, height))
    }

    /// Defines the address in main memory for the data for the
    /// currently-selected bitmap handle.
    pub fn bitmap_source<R: MainMem>(ptr: Ptr<R>) -> (r: Self)
        ensures
            r@ == spec_bitmap_source(ptr@ as u32),
    {
        OpCode::BITMAP_SOURCE.build(ptr.to_raw())
    }

    /// The `BITMAP_TRANSFORM_A` to `_F` command with opcode `op` for the
    /// coefficient.
    pub fn bitmap_transform_with(op: u8, coeff: MatrixCoeff) -> (r: Self)
        requires
            0x15 <= op <= 0x1a,
        ensures
            r@ == spec_bitmap_transform(op as u32, coeff),
    {
        DLCmd::from_raw((op as u32) << 24 | coeff.to_raw())
    }

    /// The `BITMAP_TRANSFORM_A` command for the coefficient that `coeff`
    /// converts to. For a `MatrixCoeff` in hand, `bitmap_transform_with(0x15,
    /// coeff)` is the same command with its exact encoding stated.
    pub fn bitmap_transform_a<C: Into<options::MatrixCoeff>>(coeff: C) -> (r: Self)
        ensures
            exists|c: options::MatrixCoeff| #[trigger] spec_bitmap_transform(0x15, c) == r@,
            <C as IntoSpec<options::MatrixCoeff>>::obeys_into_spec() ==> r@ == spec_bitmap_transform(0x15, coeff.into_spec()),
    {
        let coeff: options::MatrixCoeff = coeff.into();
        let r = OpCode::BITMAP_TRANSFORM_A.build(coeff.to_raw());
        assert(spec_bitmap_transform(0x15, coeff) == r@);
        r
    }

    /// The `BITMAP_TRANSFORM_B` command for the coefficient that `coeff`
    /// converts to. For a `MatrixCoeff` in hand, `bitmap_transform_with(0x16,
    /// coeff)` is the same command with its exact encoding stated.
    pub fn bitmap_transform_b<C: Into<options::MatrixCoeff>>(coeff: C) -> (r: Self)
        ensures
            exists|c: options::MatrixCoeff| #[trigger] spec_bitmap_transform(0x16, c) == r@,
            <C as IntoSpec<options::MatrixCoeff>>::obeys_into_spec() ==> r@ == spec_bitmap_transform(0x16, coeff.into_spec()),
    {
        let coeff: options::MatrixCoeff = coeff.into();
        let r = OpCode::BITMAP_TRANSFORM_B.build(coeff.to_raw());
        assert(spec_bitmap_transform(0x16, coeff) == r@);
        r
    }

    /// The `BITMAP_TRANSFORM_C` command for the coefficient that `coeff`
    /// converts to. For a `MatrixCoeff` in hand, `bitmap_transform_with(0x17,
    /// coeff)` is the same command with its exact encoding stated.
    pub fn bitmap_transform_c<C: Into<options::MatrixCoeff>>(coeff: C) -> (r: Self)
        ensures
            exists|c: options::MatrixCoeff| #[trigger] spec_bitmap_transform(0x17, c) == r@,
            <C as IntoSpec<options::MatrixCoeff>>::obeys_into_spec() ==> r@ == spec_bitmap_transform(0x17, coeff.into_spec()),
    {
        let coeff: options::MatrixCoeff = coeff.into();
        let r = OpCode::BITMAP_TRANSFORM_C.build(coeff.to_raw());
        assert(spec_bitmap_transform(0x17, coeff) == r@);
        r
    }

    /// The `BITMAP_TRANSFORM_D` command for the coefficient that `coeff`
    /// converts to. For a `MatrixCoeff` in hand, `bitmap_transform_with(0x18,
    /// coeff)` is the same command with its exact encoding stated.
    pub fn bitmap_transform_d<C: Into<options::MatrixCoeff>>(coeff: C) -> (r: Self)
        ensures
            exists|c: options::MatrixCoeff| #[trigger] spec_bitmap_transform(0x18, c) == r@,
            <C as IntoSpec<options::MatrixCoeff>>::obeys_into_spec() ==> r@ == spec_bitmap_transform(0x18, coeff.into_spec()),
    {
        let coeff: options::MatrixCoeff = coeff.into();
        let r = OpCode::BITMAP_TRANSFORM_D.build(coeff.to_raw());
        assert(spec_bitmap_transform(0x18, coeff) == r@);
        r
    }

    /// The `BITMAP_TRANSFORM_E` command for the coefficient that `coeff`
    /// converts to. For a `MatrixCoeff` in hand, `bitmap_transform_with(0x19,
    /// coeff)` is the same command with its exact encoding stated.
    pub fn bitmap_transform_e<C: Into<options::MatrixCoeff>>(coeff: C) -> (r: Self)
        ensures
            exists|c: options::MatrixCoeff| #[trigger] spec_bitmap_transform(0x19, c) == r@,
            <C as IntoSpec<options::MatrixCoeff>>::obeys_into_spec() ==> r@ == spec_bitmap_transform(0x19, coeff.into_spec()),
    {
        let coeff: options::MatrixCoeff = coeff.into();
        let r = OpCode::BITMAP_TRANSFORM_E.build(coeff.to_raw());
        assert(spec_bitmap_transform(0x19, coeff) == r@);
        r
    }

    /// The `BITMAP_TRANSFORM_F` command for the coefficient that `coeff`
    /// converts to. For a `MatrixCoeff` in hand, `bitmap_transform_with(0x1a,
    /// coeff)` is the same command with its exact encoding stated.
    pub fn bitmap_transform_f<C: Into<options::MatrixCoeff>>(coeff: C) -> (r: Self)
        ensures
            exists|c: options::MatrixCoeff| #[trigger] spec_bitmap_transform(0x1a, c) == r@,
            <C as IntoSpec<options::MatrixCoeff>>::obeys_into_spec() ==> r@ == spec_bitmap_transform(0x1a, coeff.into_spec()),
    {
        let coeff: options::MatrixCoeff = coeff.into();
        let r = OpCode::BITMAP_TRANSFORM_F.build(coeff.to_raw());
        assert(spec_bitmap_transform(0x1a, coeff) == r@);
        r
    }

    /// Calls the display list at the given offset in display list memory.
    pub fn call<R: DisplayListMem>(ptr: Ptr<R>) -> (r: Self)
        ensures
            r@ == spec_call((ptr@ - R::BASE_ADDR) as u32),
    {
        OpCode::CALL.build(ptr.to_raw_offset())
    }

    /// The `CLEAR_COLOR_RGB` and `CLEAR_COLOR_A` commands that together set
    /// all four channels of the clear color.
    pub fn clear_color_rgba_pair(color: RGBA) -> (r: (Self, Self))
        ensures
            r.0@ == spec_clear_color_rgb(color.spec_as_rgb()),
            r.1@ == spec_clear_color_alpha(color.a),
    {
        (Self::clear_color_rgb(color.as_rgb()), Self::clear_color_alpha(color.a))
    }

    /// Continues the display list at the given offset in display list memory.
    pub fn jump<R: DisplayListMem>(ptr: Ptr<R>) -> (r: Self)
        ensures
            r@ == spec_jump((ptr@ - R::BASE_ADDR) as u32),
    {
        OpCode::JUMP.build(ptr.to_raw_offset())
    }

    /// Defines the address in main memory for the palette data for
    /// index-based bitmaps.
    pub fn palette_source<R: MainMem>(ptr: Ptr<R>) -> (r: Self)
        ensures
            r@ == spec_palette_source(ptr@ as u32),
    {
        OpCode::PALETTE_SOURCE.build(ptr.to_raw())
    }

    /// The command for the position that `pos` converts to. For a
    /// `ScissorPos` in hand, `scissor_xy` is the same command with its exact encoding
    /// stated.
    pub fn scissor_pos<P: Into<ScissorPos>>(pos: P) -> (r: Self)
        ensures
            exists|v: ScissorPos| #[trigger] spec_scissor_pos(v) == r@,
            <P as IntoSpec<ScissorPos>>::obeys_into_spec() ==> r@ == spec_scissor_pos(pos.into_spec()),
    {
        let pos: ScissorPos = pos.into();
        let r = Self::scissor_xy(pos);
        assert(spec_scissor_pos(pos) == r@);
        r
    }

    /// The `SCISSOR_XY` command for the position.
    pub fn scissor_xy(pos: ScissorPos) -> (r: Self)
        ensures
            r@ == spec_scissor_pos(pos),
    {
        let coords = pos.coords();
        OpCode::SCISSOR_XY.build((coords.0 as u32 & 0b1111111111) << 10 | (coords.1 as u32 & 0b1111111111))
    }

    /// The `SCISSOR_XY` and `SCISSOR_SIZE` commands that together set the
    /// scissor rectangle.
    pub fn scissor_rect_pair<T: Into<ScissorRect>>(rect: T) -> (r: (Self, Self))
        ensures
            <T as IntoSpec<ScissorRect>>::obeys_into_spec() ==> {
                let p = rect.into_spec().spec_parts();
                &&& r.0@ == spec_scissor_pos(ScissorPos::spec_new(p.0, p.1))
                &&& r.1@ == spec_scissor_size((p.2, p.3))
            },
    {
        let rect: ScissorRect = rect.into();
        (Self::scissor_xy(rect.top_left()), Self::scissor_size(rect.size()))
    }

    /// The command for the position that `pos` converts to. For a
    /// `Vertex2F` in hand, `vertex_2f_of` is the same command with its exact encoding
    /// stated.
    pub fn vertex_2f<P: Into<Vertex2F>>(pos: P) -> (r: Self)
        ensures
            exists|v: Vertex2F| #[trigger] spec_vertex_2f(v) == r@,
            <P as IntoSpec<Vertex2F>>::obeys_into_spec() ==> r@ == spec_vertex_2f(pos.into_spec()),
    {
        let pos: Vertex2F = pos.into();
        let r = Self::vertex_2f_of(pos);
        assert(spec_vertex_2f(pos) == r@);
        r
    }

    /// The `VERTEX2F` command for the vertex.
    pub fn vertex_2f_of(pos: Vertex2F) -> (r: Self)
        ensures
            r@ == spec_vertex_2f(pos),
    {
        let coords = pos.coords();
        OpCode::VERTEX2F.build((coords.0 as u32) << 15 | (coords.1 as u32))
    }

    /// The command for the position that `pos` converts to. For a
    /// `Vertex2II` in hand, `vertex_2ii_of` is the same command with its exact encoding
    /// stated.
    pub fn vertex_2ii<P: Into<Vertex2II>>(pos: P) -> (r: Self)
        ensures
            exists|v: Vertex2II| #[trigger] spec_vertex_2ii(v) == r@,
            <P as IntoSpec<Vertex2II>>::obeys_into_spec() ==> r@ == spec_vertex_2ii(pos.into_spec()),
    {
        let pos: Vertex2II = pos.into();
        let r = Self::vertex_2ii_of(pos);
        assert(spec_vertex_2ii(pos) == r@);
        r
    }

    /// The `VERTEX2II` command for the vertex.
    pub fn vertex_2ii_of(pos: Vertex2II) -> (r: Self)
        ensures
            r@ == spec_vertex_2ii(pos),
    {
        let coords = pos.coords();
        OpCode::VERTEX2II.build((coords.0 as u32) << 21 | (coords.1 as u32) << 12)
    }

    /// The `VERTEX_TRANSLATE_X` and `VERTEX_TRANSLATE_Y` commands that
    /// together set the translation offset.
    pub fn vertex_translate_pair(offset: (i16, i16)) -> (r: (Self, Self))
        ensures
            r.0@ == spec_vertex_translate_x(offset.0),
            r.1@ == spec_vertex_translate_y(offset.1),
    {
        (Self::vertex_translate_x(offset.0), Self::vertex_translate_y(offset.1))
    }

    pub fn alpha_test(func: options::TestFunc, ref_val: u8) -> (r: Self)
        ensures
            r@ == spec_alpha_test(func, ref_val),
    {
        OpCode::ALPHA_FUNC.build((func.to_raw() as u32) << 8 | (ref_val as u32))
    }

    pub fn begin(prim: options::GraphicsPrimitive) -> (r: Self)
        ensures
            r@ == spec_begin(prim),
    {
        OpCode::BEGIN.build(prim.to_raw() as u32)
    }

    pub fn bitmap_cell(idx: u8) -> (r: Self)
        ensures
            r@ == spec_bitmap_cell(idx),
    {
        OpCode::CELL.build((idx & 0b111111) as u32)
    }

    pub fn bitmap_ext_format(format: options::BitmapExtFormat) -> (r: Self)
        ensures
            r@ == spec_bitmap_ext_format(format),
    {
        OpCode::BITMAP_EXT_FORMAT.build(format.to_raw() as u32)
    }

    pub fn bitmap_handle(bmp: options::BitmapHandle) -> (r: Self)
        ensures
            r@ == spec_bitmap_handle(bmp),
    {
        OpCode::BITMAP_HANDLE.build(bmp.to_raw() as u32)
    }

    pub fn bitmap_layout_l(format: options::BitmapFormat, line_stride: u16, height: u16) -> (r: Self)
        ensures
            r@ == spec_bitmap_layout_l(format, line_stride, height),
    {
        OpCode::BITMAP_LAYOUT.build((format.to_raw() as u32) << 19 | (line_stride as u32 & 0b1111111111) << 9 | (height as u32 & 0b111111111))
    }

    pub fn bitmap_layout_h(line_stride: u16, height: u16) -> (r: Self)
        ensures
            r@ == spec_bitmap_layout_h(line_stride, height),
    {
        OpCode::BITMAP_LAYOUT_H.build((line_stride as u32 >> 10) << 2 | (height as u32 >> 10))
    }

    pub fn bitmap_swizzle(swizzle: options::BitmapSwizzle) -> (r: Self)
        ensures
            r@ == spec_bitmap_swizzle(swizzle),
    {
        OpCode::BITMAP_SWIZZLE.build(swizzle.as_raw())
    }

    pub fn blend_func(src: options::BlendFunc, dst: options::BlendFunc) -> (r: Self)
        ensures
            r@ == spec_blend_func(src, dst),
    {
        OpCode::BLEND_FUNC.build((src.to_raw() as u32) << 3 | dst.to_raw() as u32)
    }

    pub fn clear(color: bool, stencil: bool, tag: bool) -> (r: Self)
        ensures
            r@ == spec_clear(color, stencil, tag),
    {
        OpCode::CLEAR.build(if color { 0b100 } else { 0b000 } | if stencil { 0b010 } else { 0b000 } | if tag { 0b001 } else { 0b000 })
    }

    pub fn clear_color_rgb(color: RGB) -> (r: Self)
        ensures
            r@ == spec_clear_color_rgb(color),
    {
        OpCode::CLEAR_COLOR_RGB.build((color.r as u32) << 16 | (color.g as u32) << 8 | (color.b as u32))
    }

    pub fn clear_color_alpha(alpha: u8) -> (r: Self)
        ensures
            r@ == spec_clear_color_alpha(alpha),
    {
        OpCode::CLEAR_COLOR_A.build(alpha as u32)
    }

    pub fn clear_stencil(v: u8) -> (r: Self)
        ensures
            r@ == spec_clear_stencil(v),
    {
        OpCode::CLEAR_STENCIL.build(v as u32)
    }

    pub fn clear_tag(v: u8) -> (r: Self)
        ensures
            r@ == spec_clear_tag(v),
    {
        OpCode::CLEAR_TAG.build(v as u32)
    }

    pub fn color_alpha(alpha: u8) -> (r: Self)
        ensures
            r@ == spec_color_alpha(alpha),
    {
        OpCode::COLOR_A.build(alpha as u32)
    }

    pub fn color_mask(mask: options::ColorMask) -> (r: Self)
        ensures
            r@ == spec_color_mask(mask),
    {
        OpCode::COLOR_MASK.build(mask.to_raw() as u32)
    }

    pub fn color_rgb(color: RGB) -> (r: Self)
        ensures
            r@ == spec_color_rgb(color),
    {
        OpCode::COLOR_RGB.build((color.r as u32) << 16 | (color.g as u32) << 8 | (color.b as u32))
    }

    pub fn display() -> (r: Self)
        ensures
            r@ == spec_display(),
    {
        OpCode::DISPLAY.build(0)
    }

    pub fn end() -> (r: Self)
        ensures
            r@ == spec_end(),
    {
        OpCode::END.build(0)
    }

    pub fn command_from_macro(num: u8) -> (r: Self)
        ensures
            r@ == spec_command_from_macro(num),
    {
        OpCode::MACRO.build(num as u32 & 0b1)
    }

    pub fn line_width(w: u16) -> (r: Self)
        ensures
            r@ == spec_line_width(w),
    {
        OpCode::LINE_WIDTH.build((w & 0b111111111111) as u32)
    }

    pub fn nop() -> (r: Self)
        ensures
            r@ == spec_nop(),
    {
        OpCode::NOP.build(0)
    }

    pub fn point_size(size: u16) -> (r: Self)
        ensures
            r@ == spec_point_size(size),
    {
        OpCode::POINT_SIZE.build(size as u32 & 0b0000111111111111)
    }

    pub fn restore_context() -> (r: Self)
        ensures
            r@ == spec_restore_context(),
    {
        OpCode::RESTORE_CONTEXT.build(0)
    }

    pub fn return_from_call() -> (r: Self)
        ensures
            r@ == spec_return_from_call(),
    {
        OpCode::RETURN.build(0)
    }

    pub fn save_context() -> (r: Self)
        ensures
            r@ == spec_save_context(),
    {
        OpCode::SAVE_CONTEXT.build(0)
    }

    pub fn scissor_size(dims: (u16, u16)) -> (r: Self)
        ensures
            r@ == spec_scissor_size(dims),
    {
        OpCode::SCISSOR_SIZE.build(((dims.0 as u32 & 0b111111111111) << 12) | (dims.1 as u32 & 0b111111111111))
    }

    pub fn stencil_test(func: options::TestFunc, ref_val: u8, mask: u8) -> (r: Self)
        ensures
            r@ == spec_stencil_test(func, ref_val, mask),
    {
        OpCode::STENCIL_FUNC.build((func.to_raw() as u32) << 16 | (ref_val as u32) << 8 | (mask as u32))
    }

    pub fn stencil_mask(mask: u8) -> (r: Self)
        ensures
            r@ == spec_stencil_mask(mask),
    {
        OpCode::STENCIL_MASK.build(mask as u32)
    }

    pub fn stencil_op(fail: options::StencilOp, pass: options::StencilOp) -> (r: Self)
        ensures
            r@ == spec_stencil_op(fail, pass),
    {
        OpCode::STENCIL_OP.build(((fail.to_raw() as u32) << 3) | (pass.to_raw() as u32))
    }

    pub fn tag(v: u8) -> (r: Self)
        ensures
            r@ == spec_tag(v),
    {
        OpCode::TAG.build(v as u32)
    }

    pub fn tag_mask(update: bool) -> (r: Self)
        ensures
            r@ == spec_tag_mask(update),
    {
        OpCode::TAG_MASK.build(if update { 1 } else { 0 })
    }

    pub fn vertex_format(fmt: options::VertexFormat) -> (r: Self)
        ensures
            r@ == spec_vertex_format(fmt),
    {
        OpCode::VERTEX_FORMAT.build(fmt.to_raw() as u32)
    }

    pub fn vertex_translate_x(v: i16) -> (r: Self)
        ensures
            r@ == spec_vertex_translate_x(v),
    {
        OpCode::VERTEX_TRANSLATE_X.build(v as u16 as u32)
    }

    pub fn vertex_translate_y(v: i16) -> (r: Self)
        ensures
            r@ == spec_vertex_translate_y(v),
    {
        OpCode::VERTEX_TRANSLATE_Y.build(v as u16 as u32)
    }
}

/// The commands appended to a display list log: `after` is `before`
/// followed by a prefix of `cmds`, all of them exactly when the operation
/// succeeded.
pub open spec fn dl_appended(before: Seq<u32>, after: Seq<u32>, ok: bool, cmds: Seq<u32>) -> bool {
    &&& before.len() <= after.len() <= before.len() + cmds.len()
    &&& after == (before + cmds).take(after.len() as int)
    &&& ok <==> after.len() == before.len() + cmds.len()
}

/// Some `n` commands were appended to a display list log when the operation
/// succeeded, fewer when it failed; the commands before stay.
pub open spec fn dl_appended_some(before: Seq<u32>, after: Seq<u32>, ok: bool, n: nat) -> bool {
    &&& before.len() <= after.len() <= before.len() + n
    &&& after.take(before.len() as int) == before
    &&& ok <==> after.len() == before.len() + n
}

/// Appending `c1` fully and then `c2` appends `c1 + c2`.
pub proof fn lemma_dl_appended_then(
    before: Seq<u32>,
    mid: Seq<u32>,
    after: Seq<u32>,
    ok: bool,
    c1: Seq<u32>,
    c2: Seq<u32>,
)
    requires
        dl_appended(before, mid, true, c1),
        dl_appended(mid, after, ok, c2),
    ensures
        dl_appended(before, after, ok, c1 + c2),
{
    assert(mid =~= before + c1);
    assert(before + (c1 + c2) =~= mid + c2);
}

/// Failing part way through `c1` is failing part way through `c1 + c2`.
pub proof fn lemma_dl_appended_stop(before: Seq<u32>, after: Seq<u32>, c1: Seq<u32>, c2: Seq<u32>)
    requires
        dl_appended(before, after, false, c1),
        c2.len() > 0,
    ensures
        dl_appended(before, after, false, c1 + c2),
{
    assert((before + (c1 + c2)).take(after.len() as int) =~= (before + c1).take(after.len() as int));
}

/// An exact append is also an append of that many commands.
pub proof fn lemma_dl_appended_some(before: Seq<u32>, after: Seq<u32>, ok: bool, cmds: Seq<u32>)
    requires
        dl_appended(before, after, ok, cmds),
    ensures
        dl_appended_some(before, after, ok, cmds.len()),
{
    assert(after.take(before.len() as int) =~= before);
}

/// After the first `k` of `cmds` were appended, an operation appended up to
/// `n` more of them: if it succeeded the first `k + n` are appended, and if it
/// failed, or those were all of them, the whole run appended a prefix of
/// `cmds`, all of it exactly when it succeeded.
pub proof fn lemma_dl_step(before: Seq<u32>, after: Seq<u32>, ok: bool, cmds: Seq<u32>, k: int, n: int)
    requires
        0 <= k,
        0 < n,
        k + n <= cmds.len(),
        dl_appended(before + cmds.take(k), after, ok, cmds.subrange(k, k + n)),
    ensures
        ok ==> after == before + cmds.take(k + n),
        (!ok || k + n == cmds.len()) ==> dl_appended(before, after, ok, cmds),
{
    let mid = before + cmds.take(k);
    assert(mid + cmds.subrange(k, k + n) =~= before + cmds.take(k + n));
    assert((before + cmds.take(k + n)).take(after.len() as int) =~= (before + cmds).take(after.len() as int));
    if ok {
        assert(after =~= before + cmds.take(k + n));
    }
    if k + n == cmds.len() {
        assert(cmds.take(k + n) =~= cmds);
    }
}

/// The commands that `bitmap_transform_matrix` appends: the six
/// coefficients of the matrix, row by row.
pub open spec fn bitmap_transform_matrix_cmds(m: options::Matrix3x2) -> Seq<u32> {
    let r = m.rows();
    seq![
        spec_bitmap_transform(0x15, r.0.0),
        spec_bitmap_transform(0x16, r.0.1),
        spec_bitmap_transform(0x17, r.0.2),
        spec_bitmap_transform(0x18, r.1.0),
        spec_bitmap_transform(0x19, r.1.1),
        spec_bitmap_transform(0x1a, r.1.2),
    ]
}

/// The commands that `draw_iter` appends: `BEGIN`, a vertex for each
/// position, and `END`.
pub open spec fn draw_iter_cmds(prim: options::GraphicsPrimitive, vertices: Seq<Vertex2F>) -> Seq<u32> {
    seq![spec_begin(prim)] + Seq::new(vertices.len(), |i: int| spec_vertex_2f(vertices[i])) + seq![spec_end()]
}

/// The commands that `bitmap_source_all` appends for the bitmap: its
/// source, its layout in the base format, the extended format if the base
/// format needs one, and the palette source if it has a palette.
pub open spec fn bitmap_source_all_cmds<R: RegionLayout>(bitmap: Bitmap<R>) -> Seq<u32> {
    let base = bitmap.format.base_format();
    seq![spec_bitmap_source(bitmap.image_data@ as u32)]
        + seq![
        spec_bitmap_layout_l(base, bitmap.stride as u16, bitmap.height as u16),
        spec_bitmap_layout_h(bitmap.stride as u16, bitmap.height as u16),
    ] + (if base == options::BitmapFormat::GLFormat {
        seq![spec_bitmap_ext_format(bitmap.format)]
    } else {
        Seq::empty()
    }) + (match bitmap.palette_data {
        Some(p) => seq![spec_palette_source(p@ as u32)],
        None => Seq::empty(),
    })
}

/// Trait implemented by objects that can append display list commands to
/// a display list.
///
/// Implementers usually implement only `append_raw_command`, and take the
/// default implementations of all of the other methods. An implementation
/// keeps a log of the commands it has accepted, which the contracts speak
/// of.
pub trait Builder: Sized {
    type Model: Model;
    type Error;

    /// The raw command words accepted so far, in order.
    closed spec fn dl_log(&self) -> Seq<u32> {
        Seq::empty()
    }

    /// Appends the raw command word: on success the log gains the word, on
    /// failure it stays as it was.
    fn append_raw_command(&mut self, raw: u32) -> (r: Result<(), Self::Error>)
        ensures
            dl_appended(old(self).dl_log(), final(self).dl_log(), r is Ok, seq![raw]),
    ;

    fn append_command(&mut self, cmd: DLCmd) -> (r: Result<(), Self::Error>)
        ensures
            dl_appended(old(self).dl_log(), final(self).dl_log(), r is Ok, seq![cmd@]),
    {
        self.append_raw_command(cmd.as_raw())
    }

    /// Appends the two commands in order, stopping at the first failure.
    fn append_pair(&mut self, pair: (DLCmd, DLCmd)) -> (r: Result<(), Self::Error>)
        ensures
            dl_appended(old(self).dl_log(), final(self).dl_log(), r is Ok, seq![pair.0@, pair.1@]),
    {
        let ghost before = self.dl_log();
        let r = self.append_command(pair.0);
        if r.is_err() {
            proof {
                lemma_dl_appended_stop(before, self.dl_log(), seq![pair.0@], seq![pair.1@]);
                assert(seq![pair.0@] + seq![pair.1@] =~= seq![pair.0@, pair.1@]);
            }
            return r;
        }
        let ghost mid = self.dl_log();
        let r = self.append_command(pair.1);
        proof {
            lemma_dl_appended_then(before, mid, self.dl_log(), r is Ok, seq![pair.0@], seq![pair.1@]);
            assert(seq![pair.0@] + seq![pair.1@] =~= seq![pair.0@, pair.1@]);
        }
        r
    }

    fn alpha_test(&mut self, func: options::TestFunc, ref_val: u8) -> (r: Result<(), Self::Error>)
        ensures
            dl_appended(old(self).dl_log(), final(self).dl_log(), r is Ok, seq![spec_alpha_test(func, ref_val)]),
    {
        self.append_command(DLCmd::alpha_test(func, ref_val))
    }

    fn begin(&mut self, prim: options::GraphicsPrimitive) -> (r: Result<(), Self::Error>)
        ensures
            dl_appended(old(self).dl_log(), final(self).dl_log(), r is Ok, seq![spec_begin(prim)]),
    {
        self.append_command(DLCmd::begin(prim))
    }

    fn bitmap_cell(&mut self, idx: u8) -> (r: Result<(), Self::Error>)
        ensures
            dl_appended(old(self).dl_log(), final(self).dl_log(), r is Ok, seq![spec_bitmap_cell(idx)]),
    {
        self.append_command(DLCmd::bitmap_cell(idx))
    }

    fn bitmap_ext_format(&mut self, format: options::BitmapExtFormat) -> (r: Result<(), Self::Error>)
        ensures
            dl_appended(old(self).dl_log(), final(self).dl_log(), r is Ok, seq![spec_bitmap_ext_format(format)]),
    {
        self.append_command(DLCmd::bitmap_ext_format(format))
    }

    fn bitmap_handle(&mut self, bmp: options::BitmapHandle) -> (r: Result<(), Self::Error>)
        ensures
            dl_appended(old(self).dl_log(), final(self).dl_log(), r is Ok, seq![spec_bitmap_handle(bmp)]),
    {
        self.append_command(DLCmd::bitmap_handle(bmp))
    }

    fn bitmap_layout_l(&mut self, format: options::BitmapFormat, line_stride: u16, height: u16) -> (r: Result<(), Self::Error>)
        ensures
            dl_appended(old(self).dl_log(), final(self).dl_log(), r is Ok, seq![spec_bitmap_layout_l(format, line_stride, height)]),
    {
        self.append_command(DLCmd::bitmap_layout_l(format, line_stride, height))
    }

    fn bitmap_layout_h(&mut self, line_stride: u16, height: u16) -> (r: Result<(), Self::Error>)
        ensures
            dl_appended(old(self).dl_log(), final(self).dl_log(), r is Ok, seq![spec_bitmap_layout_h(line_stride, height)]),
    {
        self.append_command(DLCmd::bitmap_layout_h(line_stride, height))
    }

    fn bitmap_size_l(&mut self, width: u16, height: u16, filter: options::BitmapSizeFilter, wrap_x: options::BitmapWrapMode, wrap_y: options::BitmapWrapMode) -> (r: Result<(), Self::Error>)
        ensures
            dl_appended(old(self).dl_log(), final(self).dl_log(), r is Ok, seq![spec_bitmap_size_l(width, height, filter, wrap_x, wrap_y)]),
    {
        self.append_command(DLCmd::bitmap_size_l(width, height, filter, wrap_x, wrap_y))
    }

    fn bitmap_size_h(&mut self, width: u16, height: u16) -> (r: Result<(), Self::Error>)
        ensures
            dl_appended(old(self).dl_log(), final(self).dl_log(), r is Ok, seq![spec_bitmap_size_h(width, height)]),
    {
        self.append_command(DLCmd::bitmap_size_h(width, height))
    }

    fn bitmap_swizzle(&mut self, swizzle: options::BitmapSwizzle) -> (r: Result<(), Self::Error>)
        ensures
            dl_appended(old(self).dl_log(), final(self).dl_log(), r is Ok, seq![spec_bitmap_swizzle(swizzle)]),
    {
        self.append_command(DLCmd::bitmap_swizzle(swizzle))
    }

    fn bitmap_source(&mut self, ptr: Ptr<<<Self as Builder>::Model as Model>::MainMem>) -> (r: Result<(), Self::Error>)
        ensures
            dl_appended(old(self).dl_log(), final(self).dl_log(), r is Ok, seq![spec_bitmap_source(ptr@ as u32)]),
    {
        self.append_command(DLCmd::bitmap_source(ptr))
    }

    fn blend_func(&mut self, src: options::BlendFunc, dst: options::BlendFunc) -> (r: Result<(), Self::Error>)
        ensures
            dl_appended(old(self).dl_log(), final(self).dl_log(), r is Ok, seq![spec_blend_func(src, dst)]),
    {
        self.append_command(DLCmd::blend_func(src, dst))
    }

    fn call(&mut self, addr: Ptr<<<Self as Builder>::Model as Model>::DisplayListMem>) -> (r: Result<(), Self::Error>)
        ensures
            dl_appended(old(self).dl_log(), final(self).dl_log(), r is Ok, seq![spec_call((addr@ - <<Self as Builder>::Model as Model>::DisplayListMem::BASE_ADDR) as u32)]),
    {
        self.append_command(DLCmd::call(addr))
    }

    fn clear(&mut self, color: bool, stencil: bool, tag: bool) -> (r: Result<(), Self::Error>)
        ensures
            dl_appended(old(self).dl_log(), final(self).dl_log(), r is Ok, seq![spec_clear(color, stencil, tag)]),
    {
        self.append_command(DLCmd::clear(color, stencil, tag))
    }

    fn clear_all(&mut self) -> (r: Result<(), Self::Error>)
        ensures
            dl_appended(old(self).dl_log(), final(self).dl_log(), r is Ok, seq![spec_clear(true, true, true)]),
    {
        self.append_command(DLCmd::clear(true, true, true))
    }

    fn clear_color_rgb(&mut self, color: RGB) -> (r: Result<(), Self::Error>)
        ensures
            dl_appended(old(self).dl_log(), final(self).dl_log(), r is Ok, seq![spec_clear_color_rgb(color)]),
    {
        self.append_command(DLCmd::clear_color_rgb(color))
    }

    fn clear_color_alpha(&mut self, alpha: u8) -> (r: Result<(), Self::Error>)
        ensures
            dl_appended(old(self).dl_log(), final(self).dl_log(), r is Ok, seq![spec_clear_color_alpha(alpha)]),
    {
        self.append_command(DLCmd::clear_color_alpha(alpha))
    }

    fn clear_stencil(&mut self, v: u8) -> (r: Result<(), Self::Error>)
        ensures
            dl_appended(old(self).dl_log(), final(self).dl_log(), r is Ok, seq![spec_clear_stencil(v)]),
    {
        self.append_command(DLCmd::clear_stencil(v))
    }

    fn clear_tag(&mut self, v: u8) -> (r: Result<(), Self::Error>)
        ensures
            dl_appended(old(self).dl_log(), final(self).dl_log(), r is Ok, seq![spec_clear_tag(v)]),
    {
        self.append_command(DLCmd::clear_tag(v))
    }

    fn color_rgb(&mut self, color: RGB) -> (r: Result<(), Self::Error>)
        ensures
            dl_appended(old(self).dl_log(), final(self).dl_log(), r is Ok, seq![spec_color_rgb(color)]),
    {
        self.append_command(DLCmd::color_rgb(color))
    }

    fn color_mask(&mut self, mask: options::ColorMask) -> (r: Result<(), Self::Error>)
        ensures
            dl_appended(old(self).dl_log(), final(self).dl_log(), r is Ok, seq![spec_color_mask(mask)]),
    {
        self.append_command(DLCmd::color_mask(mask))
    }

    fn color_alpha(&mut self, alpha: u8) -> (r: Result<(), Self::Error>)
        ensures
            dl_appended(old(self).dl_log(), final(self).dl_log(), r is Ok, seq![spec_color_alpha(alpha)]),
    {
        self.append_command(DLCmd::color_alpha(alpha))
    }

    fn display(&mut self) -> (r: Result<(), Self::Error>)
        ensures
            dl_appended(old(self).dl_log(), final(self).dl_log(), r is Ok, seq![spec_display()]),
    {
        self.append_command(DLCmd::display())
    }

    fn end(&mut self) -> (r: Result<(), Self::Error>)
        ensures
            dl_appended(old(self).dl_log(), final(self).dl_log(), r is Ok, seq![spec_end()]),
    {
        self.append_command(DLCmd::end())
    }

    fn command_from_macro(&mut self, num: u8) -> (r: Result<(), Self::Error>)
        ensures
            dl_appended(old(self).dl_log(), final(self).dl_log(), r is Ok, seq![spec_command_from_macro(num)]),
    {
        self.append_command(DLCmd::command_from_macro(num))
    }

    fn jump(&mut self, addr: Ptr<<<Self as Builder>::Model as Model>::DisplayListMem>) -> (r: Result<(), Self::Error>)
        ensures
            dl_appended(old(self).dl_log(), final(self).dl_log(), r is Ok, seq![spec_jump((addr@ - <<Self as Builder>::Model as Model>::DisplayListMem::BASE_ADDR) as u32)]),
    {
        self.append_command(DLCmd::jump(addr))
    }

    fn line_width(&mut self, v: u16) -> (r: Result<(), Self::Error>)
        ensures
            dl_appended(old(self).dl_log(), final(self).dl_log(), r is Ok, seq![spec_line_width(v)]),
    {
        self.append_command(DLCmd::line_width(v))
    }

    fn nop(&mut self) -> (r: Result<(), Self::Error>)
        ensures
            dl_appended(old(self).dl_log(), final(self).dl_log(), r is Ok, seq![spec_nop()]),
    {
        self.append_command(DLCmd::nop())
    }

    fn palette_source(&mut self, ptr: Ptr<<<Self as Builder>::Model as Model>::MainMem>) -> (r: Result<(), Self::Error>)
        ensures
            dl_appended(old(self).dl_log(), final(self).dl_log(), r is Ok, seq![spec_palette_source(ptr@ as u32)]),
    {
        self.append_command(DLCmd::palette_source(ptr))
    }

    fn point_size(&mut self, size: u16) -> (r: Result<(), Self::Error>)
        ensures
            dl_appended(old(self).dl_log(), final(self).dl_log(), r is Ok, seq![spec_point_size(size)]),
    {
        self.append_command(DLCmd::point_size(size))
    }

    fn restore_context(&mut self) -> (r: Result<(), Self::Error>)
        ensures
            dl_appended(old(self).dl_log(), final(self).dl_log(), r is Ok, seq![spec_restore_context()]),
    {
        self.append_command(DLCmd::restore_context())
    }

    fn return_from_call(&mut self) -> (r: Result<(), Self::Error>)
        ensures
            dl_appended(old(self).dl_log(), final(self).dl_log(), r is Ok, seq![spec_return_from_call()]),
    {
        self.append_command(DLCmd::return_from_call())
    }

    fn save_context(&mut self) -> (r: Result<(), Self::Error>)
        ensures
            dl_appended(old(self).dl_log(), final(self).dl_log(), r is Ok, seq![spec_save_context()]),
    {
        self.append_command(DLCmd::save_context())
    }

    fn scissor_size(&mut self, dims: (u16, u16)) -> (r: Result<(), Self::Error>)
        ensures
            dl_appended(old(self).dl_log(), final(self).dl_log(), r is Ok, seq![spec_scissor_size(dims)]),
    {
        self.append_command(DLCmd::scissor_size(dims))
    }

    fn stencil_test(&mut self, func: options::TestFunc, ref_val: u8, mask: u8) -> (r: Result<(), Self::Error>)
        ensures
            dl_appended(old(self).dl_log(), final(self).dl_log(), r is Ok, seq![spec_stencil_test(func, ref_val, mask)]),
    {
        self.append_command(DLCmd::stencil_test(func, ref_val, mask))
    }

    fn stencil_mask(&mut self, mask: u8) -> (r: Result<(), Self::Error>)
        ensures
            dl_appended(old(self).dl_log(), final(self).dl_log(), r is Ok, seq![spec_stencil_mask(mask)]),
    {
        self.append_command(DLCmd::stencil_mask(mask))
    }

    fn stencil_op(&mut self, fail: options::StencilOp, pass: options::StencilOp) -> (r: Result<(), Self::Error>)
        ensures
            dl_appended(old(self).dl_log(), final(self).dl_log(), r is Ok, seq![spec_stencil_op(fail, pass)]),
    {
        self.append_command(DLCmd::stencil_op(fail, pass))
    }

    fn tag(&mut self, v: u8) -> (r: Result<(), Self::Error>)
        ensures
            dl_appended(old(self).dl_log(), final(self).dl_log(), r is Ok, seq![spec_tag(v)]),
    {
        self.append_command(DLCmd::tag(v))
    }

    fn tag_mask(&mut self, update: bool) -> (r: Result<(), Self::Error>)
        ensures
            dl_appended(old(self).dl_log(), final(self).dl_log(), r is Ok, seq![spec_tag_mask(update)]),
    {
        self.append_command(DLCmd::tag_mask(update))
    }

    fn vertex_format(&mut self, fmt: options::VertexFormat) -> (r: Result<(), Self::Error>)
        ensures
            dl_appended(old(self).dl_log(), final(self).dl_log(), r is Ok, seq![spec_vertex_format(fmt)]),
    {
        self.append_command(DLCmd::vertex_format(fmt))
    }

    fn vertex_translate_x(&mut self, v: i16) -> (r: Result<(), Self::Error>)
        ensures
            dl_appended(old(self).dl_log(), final(self).dl_log(), r is Ok, seq![spec_vertex_translate_x(v)]),
    {
        self.append_command(DLCmd::vertex_translate_x(v))
    }

    fn vertex_translate_y(&mut self, v: i16) -> (r: Result<(), Self::Error>)
        ensures
            dl_appended(old(self).dl_log(), final(self).dl_log(), r is Ok, seq![spec_vertex_translate_y(v)]),
    {
        self.append_command(DLCmd::vertex_translate_y(v))
    }

    fn bitmap_transform_a<C: Into<options::MatrixCoeff>>(&mut self, coeff: C) -> (r: Result<(), Self::Error>)
        ensures
            dl_appended_some(old(self).dl_log(), final(self).dl_log(), r is Ok, 1),
            exists|c: options::MatrixCoeff|
                #![trigger spec_bitmap_transform(0x15, c)]
                dl_appended(old(self).dl_log(), final(self).dl_log(), r is Ok, seq![spec_bitmap_transform(0x15, c)]),
            <C as IntoSpec<options::MatrixCoeff>>::obeys_into_spec() ==> dl_appended(
                old(self).dl_log(),
                final(self).dl_log(),
                r is Ok,
                seq![spec_bitmap_transform(0x15, coeff.into_spec())],
            ),
    {
        let cmd = DLCmd::bitmap_transform_a(coeff);
        let ghost before = self.dl_log();
        let r = self.append_command(cmd);
        proof {
            lemma_dl_appended_some(before, self.dl_log(), r is Ok, seq![cmd@]);
            let c = choose|c: options::MatrixCoeff| spec_bitmap_transform(0x15, c) == cmd@;
            assert(dl_appended(before, self.dl_log(), r is Ok, seq![spec_bitmap_transform(0x15, c)]));
        }
        r
    }

    fn bitmap_transform_b<C: Into<options::MatrixCoeff>>(&mut self, coeff: C) -> (r: Result<(), Self::Error>)
        ensures
            dl_appended_some(old(self).dl_log(), final(self).dl_log(), r is Ok, 1),
            exists|c: options::MatrixCoeff|
                #![trigger spec_bitmap_transform(0x16, c)]
                dl_appended(old(self).dl_log(), final(self).dl_log(), r is Ok, seq![spec_bitmap_transform(0x16, c)]),
            <C as IntoSpec<options::MatrixCoeff>>::obeys_into_spec() ==> dl_appended(
                old(self).dl_log(),
                final(self).dl_log(),
                r is Ok,
                seq![spec_bitmap_transform(0x16, coeff.into_spec())],
            ),
    {
        let cmd = DLCmd::bitmap_transform_b(coeff);
        let ghost before = self.dl_log();
        let r = self.append_command(cmd);
        proof {
            lemma_dl_appended_some(before, self.dl_log(), r is Ok, seq![cmd@]);
            let c = choose|c: options::MatrixCoeff| spec_bitmap_transform(0x16, c) == cmd@;
            assert(dl_appended(before, self.dl_log(), r is Ok, seq![spec_bitmap_transform(0x16, c)]));
        }
        r
    }

    fn bitmap_transform_c<C: Into<options::MatrixCoeff>>(&mut self, coeff: C) -> (r: Result<(), Self::Error>)
        ensures
            dl_appended_some(old(self).dl_log(), final(self).dl_log(), r is Ok, 1),
            exists|c: options::MatrixCoeff|
                #![trigger spec_bitmap_transform(0x17, c)]
                dl_appended(old(self).dl_log(), final(self).dl_log(), r is Ok, seq![spec_bitmap_transform(0x17, c)]),
            <C as IntoSpec<options::MatrixCoeff>>::obeys_into_spec() ==> dl_appended(
                old(self).dl_log(),
                final(self).dl_log(),
                r is Ok,
                seq![spec_bitmap_transform(0x17, coeff.into_spec())],
            ),
    {
        let cmd = DLCmd::bitmap_transform_c(coeff);
        let ghost before = self.dl_log();
        let r = self.append_command(cmd);
        proof {
            lemma_dl_appended_some(before, self.dl_log(), r is Ok, seq![cmd@]);
            let c = choose|c: options::MatrixCoeff| spec_bitmap_transform(0x17, c) == cmd@;
            assert(dl_appended(before, self.dl_log(), r is Ok, seq![spec_bitmap_transform(0x17, c)]));
        }
        r
    }

    fn bitmap_transform_d<C: Into<options::MatrixCoeff>>(&mut self, coeff: C) -> (r: Result<(), Self::Error>)
        ensures
            dl_appended_some(old(self).dl_log(), final(self).dl_log(), r is Ok, 1),
            exists|c: options::MatrixCoeff|
                #![trigger spec_bitmap_transform(0x18, c)]
                dl_appended(old(self).dl_log(), final(self).dl_log(), r is Ok, seq![spec_bitmap_transform(0x18, c)]),
            <C as IntoSpec<options::MatrixCoeff>>::obeys_into_spec() ==> dl_appended(
                old(self).dl_log(),
                final(self).dl_log(),
                r is Ok,
                seq![spec_bitmap_transform(0x18, coeff.into_spec())],
            ),
    {
        let cmd = DLCmd::bitmap_transform_d(coeff);
        let ghost before = self.dl_log();
        let r = self.append_command(cmd);
        proof {
            lemma_dl_appended_some(before, self.dl_log(), r is Ok, seq![cmd@]);
            let c = choose|c: options::MatrixCoeff| spec_bitmap_transform(0x18, c) == cmd@;
            assert(dl_appended(before, self.dl_log(), r is Ok, seq![spec_bitmap_transform(0x18, c)]));
        }
        r
    }

    fn bitmap_transform_e<C: Into<options::MatrixCoeff>>(&mut self, coeff: C) -> (r: Result<(), Self::Error>)
        ensures
            dl_appended_some(old(self).dl_log(), final(self).dl_log(), r is Ok, 1),
            exists|c: options::MatrixCoeff|
                #![trigger spec_bitmap_transform(0x19, c)]
                dl_appended(old(self).dl_log(), final(self).dl_log(), r is Ok, seq![spec_bitmap_transform(0x19, c)]),
            <C as IntoSpec<options::MatrixCoeff>>::obeys_into_spec() ==> dl_appended(
                old(self).dl_log(),
                final(self).dl_log(),
                r is Ok,
                seq![spec_bitmap_transform(0x19, coeff.into_spec())],
            ),
    {
        let cmd = DLCmd::bitmap_transform_e(coeff);
        let ghost before = self.dl_log();
        let r = self.append_command(cmd);
        proof {
            lemma_dl_appended_some(before, self.dl_log(), r is Ok, seq![cmd@]);
            let c = choose|c: options::MatrixCoeff| spec_bitmap_transform(0x19, c) == cmd@;
            assert(dl_appended(before, self.dl_log(), r is Ok, seq![spec_bitmap_transform(0x19, c)]));
        }
        r
    }

    fn bitmap_transform_f<C: Into<options::MatrixCoeff>>(&mut self, coeff: C) -> (r: Result<(), Self::Error>)
        ensures
            dl_appended_some(old(self).dl_log(), final(self).dl_log(), r is Ok, 1),
            exists|c: options::MatrixCoeff|
                #![trigger spec_bitmap_transform(0x1a, c)]
                dl_appended(old(self).dl_log(), final(self).dl_log(), r is Ok, seq![spec_bitmap_transform(0x1a, c)]),
            <C as IntoSpec<options::MatrixCoeff>>::obeys_into_spec() ==> dl_appended(
                old(self).dl_log(),
                final(self).dl_log(),
                r is Ok,
                seq![spec_bitmap_transform(0x1a, coeff.into_spec())],
            ),
    {
        let cmd = DLCmd::bitmap_transform_f(coeff);
        let ghost before = self.dl_log();
        let r = self.append_command(cmd);
        proof {
            lemma_dl_appended_some(before, self.dl_log(), r is Ok, seq![cmd@]);
            let c = choose|c: options::MatrixCoeff| spec_bitmap_transform(0x1a, c) == cmd@;
            assert(dl_appended(before, self.dl_log(), r is Ok, seq![spec_bitmap_transform(0x1a, c)]));
        }
        r
    }

    fn scissor_pos<P: Into<crate::graphics::ScissorPos>>(&mut self, pos: P) -> (r: Result<(), Self::Error>)
        ensures
            dl_appended_some(old(self).dl_log(), final(self).dl_log(), r is Ok, 1),
            exists|v: crate::graphics::ScissorPos|
                #![trigger spec_scissor_pos(v)]
                dl_appended(old(self).dl_log(), final(self).dl_log(), r is Ok, seq![spec_scissor_pos(v)]),
            <P as IntoSpec<crate::graphics::ScissorPos>>::obeys_into_spec() ==> dl_appended(
                old(self).dl_log(),
                final(self).dl_log(),
                r is Ok,
                seq![spec_scissor_pos(pos.into_spec())],
            ),
    {
        let cmd = DLCmd::scissor_pos(pos);
        let ghost before = self.dl_log();
        let r = self.append_command(cmd);
        proof {
            lemma_dl_appended_some(before, self.dl_log(), r is Ok, seq![cmd@]);
            let v = choose|v: crate::graphics::ScissorPos| spec_scissor_pos(v) == cmd@;
            assert(dl_appended(before, self.dl_log(), r is Ok, seq![spec_scissor_pos(v)]));
        }
        r
    }

    fn vertex_2f<P: Into<Vertex2F>>(&mut self, pos: P) -> (r: Result<(), Self::Error>)
        ensures
            dl_appended_some(old(self).dl_log(), final(self).dl_log(), r is Ok, 1),
            exists|v: Vertex2F|
                #![trigger spec_vertex_2f(v)]
                dl_appended(old(self).dl_log(), final(self).dl_log(), r is Ok, seq![spec_vertex_2f(v)]),
            <P as IntoSpec<Vertex2F>>::obeys_into_spec() ==> dl_appended(
                old(self).dl_log(),
                final(self).dl_log(),
                r is Ok,
                seq![spec_vertex_2f(pos.into_spec())],
            ),
    {
        let cmd = DLCmd::vertex_2f(pos);
        let ghost before = self.dl_log();
        let r = self.append_command(cmd);
        proof {
            lemma_dl_appended_some(before, self.dl_log(), r is Ok, seq![cmd@]);
            let v = choose|v: Vertex2F| spec_vertex_2f(v) == cmd@;
            assert(dl_appended(before, self.dl_log(), r is Ok, seq![spec_vertex_2f(v)]));
        }
        r
    }

    fn vertex_2ii<P: Into<Vertex2II>>(&mut self, pos: P) -> (r: Result<(), Self::Error>)
        ensures
            dl_appended_some(old(self).dl_log(), final(self).dl_log(), r is Ok, 1),
            exists|v: Vertex2II|
                #![trigger spec_vertex_2ii(v)]
                dl_appended(old(self).dl_log(), final(self).dl_log(), r is Ok, seq![spec_vertex_2ii(v)]),
            <P as IntoSpec<Vertex2II>>::obeys_into_spec() ==> dl_appended(
                old(self).dl_log(),
                final(self).dl_log(),
                r is Ok,
                seq![spec_vertex_2ii(pos.into_spec())],
            ),
    {
        let cmd = DLCmd::vertex_2ii(pos);
        let ghost before = self.dl_log();
        let r = self.append_command(cmd);
        proof {
            lemma_dl_appended_some(before, self.dl_log(), r is Ok, seq![cmd@]);
            let v = choose|v: Vertex2II| spec_vertex_2ii(v) == cmd@;
            assert(dl_appended(before, self.dl_log(), r is Ok, seq![spec_vertex_2ii(v)]));
        }
        r
    }

    /// Appends `bitmap_layout_l` and `bitmap_layout_h` with the same values,
    /// to set all of the bits of the `line_stride` and `height` fields.
    fn bitmap_layout(&mut self, format: options::BitmapFormat, line_stride: u16, height: u16) -> (r: Result<(), Self::Error>)
        ensures
            dl_appended(old(self).dl_log(), final(self).dl_log(), r is Ok, seq![spec_bitmap_layout_l(format, line_stride, height), spec_bitmap_layout_h(line_stride, height)]),
    {
        let pair = DLCmd::bitmap_layout_pair(format, line_stride, height);
        self.append_pair(pair)
    }

    /// Appends `bitmap_size_l` and `bitmap_size_h` with the same values, to
    /// set all of the bits of the `width` and `height` fields.
    fn bitmap_size(&mut self, width: u16, height: u16, filter: options::BitmapSizeFilter, wrap_x: options::BitmapWrapMode, wrap_y: options::BitmapWrapMode) -> (r: Result<(), Self::Error>)
        ensures
            dl_appended(old(self).dl_log(), final(self).dl_log(), r is Ok, seq![spec_bitmap_size_l(width, height, filter, wrap_x, wrap_y), spec_bitmap_size_h(width, height)]),
    {
        let pair = DLCmd::bitmap_size_pair(width, height, filter, wrap_x, wrap_y);
        self.append_pair(pair)
    }

    /// Appends the commands that set all four channels of the clear color.
    fn clear_color_rgba(&mut self, color: RGBA) -> (r: Result<(), Self::Error>)
        ensures
            dl_appended(old(self).dl_log(), final(self).dl_log(), r is Ok, seq![spec_clear_color_rgb(color.spec_as_rgb()), spec_clear_color_alpha(color.a)]),
    {
        let pair = DLCmd::clear_color_rgba_pair(color);
        self.append_pair(pair)
    }

    /// Appends the commands that set both coordinates of the translation
    /// offset.
    fn vertex_translate(&mut self, offset: (i16, i16)) -> (r: Result<(), Self::Error>)
        ensures
            dl_appended(old(self).dl_log(), final(self).dl_log(), r is Ok, seq![spec_vertex_translate_x(offset.0), spec_vertex_translate_y(offset.1)]),
    {
        let pair = DLCmd::vertex_translate_pair(offset);
        self.append_pair(pair)
    }

    /// Appends six display list commands to set all six of the bitmap
    /// transform matrix coefficients to match the given matrix. For a
    /// `Matrix3x2` in hand, `bitmap_transform_matrix_of` appends the same
    /// commands with them stated exactly.
    fn bitmap_transform_matrix<T: Into<options::Matrix3x2>>(&mut self, matrix: T) -> (r: Result<(), Self::Error>)
        ensures
            dl_appended_some(old(self).dl_log(), final(self).dl_log(), r is Ok, 6),
            exists|m: options::Matrix3x2|
                dl_appended(old(self).dl_log(), final(self).dl_log(), r is Ok, #[trigger] bitmap_transform_matrix_cmds(m)),
            <T as IntoSpec<options::Matrix3x2>>::obeys_into_spec() ==> dl_appended(
                old(self).dl_log(),
                final(self).dl_log(),
                r is Ok,
                bitmap_transform_matrix_cmds(matrix.into_spec()),
            ),
    {
        let matrix: options::Matrix3x2 = matrix.into();
        let r = self.bitmap_transform_matrix_of(matrix);
        proof {
            assert(dl_appended(old(self).dl_log(), self.dl_log(), r is Ok, bitmap_transform_matrix_cmds(matrix)));
            lemma_dl_appended_some(old(self).dl_log(), self.dl_log(), r is Ok, bitmap_transform_matrix_cmds(matrix));
        }
        r
    }

    /// Appends the six `BITMAP_TRANSFORM_A` to `_F` commands of the matrix,
    /// row by row, stopping at the first failure.
    fn bitmap_transform_matrix_of(&mut self, matrix: options::Matrix3x2) -> (r: Result<(), Self::Error>)
        ensures
            dl_appended(old(self).dl_log(), final(self).dl_log(), r is Ok, bitmap_transform_matrix_cmds(matrix)),
    {
        let ghost before = self.dl_log();
        let ghost cmds = bitmap_transform_matrix_cmds(matrix);
        assert(before + cmds.take(0) =~= before);
        let rows = matrix.coeff_rows();

        let cmd = DLCmd::bitmap_transform_with(0x15, rows.0.0);
        assert(cmds.subrange(0, 1) =~= seq![cmd@]);
        let r = self.append_command(cmd);
        proof { lemma_dl_step(before, self.dl_log(), r is Ok, cmds, 0, 1); }
        if r.is_err() {
            return r;
        }
        let cmd = DLCmd::bitmap_transform_with(0x16, rows.0.1);
        assert(cmds.subrange(1, 2) =~= seq![cmd@]);
        let r = self.append_command(cmd);
        proof { lemma_dl_step(before, self.dl_log(), r is Ok, cmds, 1, 1); }
        if r.is_err() {
            return r;
        }
        let cmd = DLCmd::bitmap_transform_with(0x17, rows.0.2);
        assert(cmds.subrange(2, 3) =~= seq![cmd@]);
        let r = self.append_command(cmd);
        proof { lemma_dl_step(before, self.dl_log(), r is Ok, cmds, 2, 1); }
        if r.is_err() {
            return r;
        }
        let cmd = DLCmd::bitmap_transform_with(0x18, rows.1.0);
        assert(cmds.subrange(3, 4) =~= seq![cmd@]);
        let r = self.append_command(cmd);
        proof { lemma_dl_step(before, self.dl_log(), r is Ok, cmds, 3, 1); }
        if r.is_err() {
            return r;
        }
        let cmd = DLCmd::bitmap_transform_with(0x19, rows.1.1);
        assert(cmds.subrange(4, 5) =~= seq![cmd@]);
        let r = self.append_command(cmd);
        proof { lemma_dl_step(before, self.dl_log(), r is Ok, cmds, 4, 1); }
        if r.is_err() {
            return r;
        }
        let cmd = DLCmd::bitmap_transform_with(0x1a, rows.1.2);
        assert(cmds.subrange(5, 6) =~= seq![cmd@]);
        let r = self.append_command(cmd);
        proof {
            lemma_dl_step(before, self.dl_log(), r is Ok, cmds, 5, 1);
        }
        r
    }

    /// Appends the commands that set the scissor rectangle: its position
    /// and its size.
    fn scissor_rect<T: Into<ScissorRect>>(&mut self, rect: T) -> (r: Result<(), Self::Error>)
        ensures
            dl_appended_some(old(self).dl_log(), final(self).dl_log(), r is Ok, 2),
            <T as IntoSpec<ScissorRect>>::obeys_into_spec() ==> {
                let p = rect.into_spec().spec_parts();
                dl_appended(
                    old(self).dl_log(),
                    final(self).dl_log(),
                    r is Ok,
                    seq![spec_scissor_pos(ScissorPos::spec_new(p.0, p.1)), spec_scissor_size((p.2, p.3))],
                )
            },
    {
        let pair = DLCmd::scissor_rect_pair(rect);
        let ghost before = self.dl_log();
        let r = self.append_pair(pair);
        proof {
            lemma_dl_appended_some(before, self.dl_log(), r is Ok, seq![pair.0@, pair.1@]);
        }
        r
    }

    /// Appends the commands that describe the bitmap: its source address, its
    /// layout, its extended format where its base format needs one, and its
    /// palette source where it has a palette.
    fn bitmap_source_all(&mut self, bitmap: Bitmap<<<Self as Builder>::Model as Model>::MainMem>) -> (r: Result<(), Self::Error>)
        ensures
            dl_appended(old(self).dl_log(), final(self).dl_log(), r is Ok, bitmap_source_all_cmds(bitmap)),
    {
        let ghost before = self.dl_log();
        let ghost cmds = bitmap_source_all_cmds(bitmap);
        assert(before + cmds.take(0) =~= before);
        let r = self.bitmap_source(bitmap.image_data);
        assert(cmds.subrange(0, 1) =~= seq![spec_bitmap_source(bitmap.image_data@ as u32)]);
        proof {
            lemma_dl_step(before, self.dl_log(), r is Ok, cmds, 0, 1);
        }
        if r.is_err() {
            return r;
        }
        let base_format: options::BitmapFormat = bitmap.format.to_base_format();
        let r = self.bitmap_layout(base_format, bitmap.stride as u16, bitmap.height as u16);
        assert(cmds.subrange(1, 3) =~= seq![
            spec_bitmap_layout_l(base_format, bitmap.stride as u16, bitmap.height as u16),
            spec_bitmap_layout_h(bitmap.stride as u16, bitmap.height as u16),
        ]);
        proof {
            lemma_dl_step(before, self.dl_log(), r is Ok, cmds, 1, 2);
        }
        if r.is_err() {
            return r;
        }
        let ghost mut k: int = 3;
        if base_format.needs_ext_format() {
            let r = self.bitmap_ext_format(bitmap.format);
            assert(cmds.subrange(3, 4) =~= seq![spec_bitmap_ext_format(bitmap.format)]);
            proof {
                lemma_dl_step(before, self.dl_log(), r is Ok, cmds, 3, 1);
                k = 4;
            }
            if r.is_err() {
                return r;
            }
        }
        if let Some(addr) = bitmap.palette_data {
            let r = self.palette_source(addr);
            assert(cmds.subrange(k, k + 1) =~= seq![spec_palette_source(addr@ as u32)]);
            proof {
                lemma_dl_step(before, self.dl_log(), r is Ok, cmds, k, 1);
            }
            if r.is_err() {
                return r;
            }
        } else {
            proof {
                assert(cmds.take(k) =~= cmds);
                assert(before + cmds =~= (before + cmds).take((before + cmds).len() as int));
            }
        }
        Ok(())
    }

    /// Draw a graphics primitive of a particular type, with zero or more
    /// vertices defined in a closure.
    ///
    /// This is a helper wrapper around `begin`, followed by any vertices you
    /// generate in your closure, followed by `end`. The closure is handed a
    /// vertex builder that appends to this builder.
    ///
    /// If `begin` is refused, its error is returned and the log stays as it
    /// was. Otherwise the closure is handed a vertex builder over this
    /// builder with `BEGIN` of `prim` appended; if the closure fails, its
    /// error is returned and the log is as the closure left it; if it
    /// succeeds, `END` is appended to what it left, and the result is that
    /// of appending `END`.
    fn draw<F: FnOnce(shape_builder::VertexBuilder<Self>) -> Result<(), Self::Error>>(
        &mut self,
        prim: options::GraphicsPrimitive,
        f: F,
    ) -> (r: Result<(), Self::Error>)
        requires
            forall|vb: shape_builder::VertexBuilder<Self>| #[trigger] f.requires((vb,)),
        ensures
            r is Ok ==> final(self).dl_log().len() > 0 && final(self).dl_log().last() == spec_end(),
            (r is Err && final(self).dl_log() == old(self).dl_log()) || exists|
                vb: shape_builder::VertexBuilder<Self>,
                fr: Result<(), Self::Error>,
            |
                {
                    &&& #[trigger] call_ensures(f, (vb,), fr)
                    &&& vb.builder.dl_log() == old(self).dl_log().push(spec_begin(prim))
                    &&& fr is Err ==> r == fr && final(self).dl_log() == final(vb.builder).dl_log()
                    &&& fr is Ok ==> dl_appended(final(vb.builder).dl_log(), final(self).dl_log(), r is Ok, seq![spec_end()])
                },
    {
        let r = self.begin(prim);
        if r.is_err() {
            assert(self.dl_log() =~= old(self).dl_log());
            return r;
        }
        assert(self.dl_log() =~= old(self).dl_log().push(spec_begin(prim)));
        let vb = shape_builder::VertexBuilder { builder: self };
        let ghost gvb = vb;
        let r = f(vb);
        assert(*self == *final(gvb.builder));
        assert(exists|b: shape_builder::VertexBuilder<Self>| #[trigger] call_ensures(f, (b,), r) && b.builder.dl_log() == gvb.builder.dl_log() && *final(b.builder) == *final(gvb.builder));
        if r.is_err() {
            return r;
        }
        let ghost mid = self.dl_log();
        let r = self.end();
        proof {
            if r is Ok {
                assert(self.dl_log() =~= mid + seq![spec_end()]);
            }
        }
        r
    }

    /// Draw a graphics primitive of a particular type, with a vertex for
    /// each of the given positions.
    ///
    /// This is a helper wrapper around `begin`, followed by a `vertex_2f`
    /// for each position, followed by `end`.
    fn draw_iter(&mut self, prim: options::GraphicsPrimitive, vertices: &[Vertex2F]) -> (r: Result<(), Self::Error>)
        ensures
            dl_appended(old(self).dl_log(), final(self).dl_log(), r is Ok, draw_iter_cmds(prim, vertices@)),
    {
        let ghost before = self.dl_log();
        let ghost cmds = draw_iter_cmds(prim, vertices@);
        assert(before + cmds.take(0) =~= before);
        let r = self.begin(prim);
        assert(cmds.subrange(0, 1) =~= seq![spec_begin(prim)]);
        proof {
            lemma_dl_step(before, self.dl_log(), r is Ok, cmds, 0, 1);
        }
        if r.is_err() {
            return r;
        }
        let mut i: usize = 0;
        while i < vertices.len()
            invariant
                0 <= i <= vertices.len(),
                cmds == draw_iter_cmds(prim, vertices@),
                self.dl_log() == before + cmds.take(i + 1),
                before == old(self).dl_log(),
            decreases vertices.len() - i,
        {
            let cmd = DLCmd::vertex_2f_of(vertices[i]);
            assert(cmds.subrange(i + 1, i + 2) =~= seq![cmd@]);
            let r = self.append_command(cmd);
            proof {
                lemma_dl_step(before, self.dl_log(), r is Ok, cmds, i + 1, 1);
            }
            if r.is_err() {
                return r;
            }
            i += 1;
        }
        let r = self.end();
        assert(cmds.subrange(vertices.len() + 1, vertices.len() + 2) =~= seq![spec_end()]);
        proof {
            lemma_dl_step(before, self.dl_log(), r is Ok, cmds, vertices.len() + 1, 1);
        }
        r
    }
}

/// An implementation of `Builder` that _only_ has the display
/// list building functionality, wrapping another object that implements the
/// trait, for situations where it would be inappropriate to use other
/// functionality of the wrapped object while building a display list.
pub struct JustBuilder<'a, W: Builder> {
    /// The builder that this one appends to.
    pub w: &'a mut W,
}

impl<'a, W: Builder> JustBuilder<'a, W> {
    /// The builder that this one appends to.
    pub closed spec fn inner(&self) -> W {
        *self.w
    }

    pub(crate) fn new(w: &'a mut W) -> (r: Self)
        ensures
            *r.w == *old(w),
            *final(r.w) == *final(w),
    {
        JustBuilder { w: w }
    }
}

impl<'a, W: Builder> Builder for JustBuilder<'a, W> {
    type Model = W::Model;
    type Error = W::Error;

    closed spec fn dl_log(&self) -> Seq<u32> {
        self.w.dl_log()
    }

    fn append_raw_command(&mut self, raw: u32) -> (r: Result<(), W::Error>) {
        self.w.append_raw_command(raw)
    }
}

/// Wraps the builder in a `JustBuilder`, which appends to it and offers
/// nothing else.
pub fn just_builder<'a, W: Builder>(wrapped: &'a mut W) -> (r: JustBuilder<'a, W>)
    ensures
        r.inner() == *old(wrapped),
        r.dl_log() == old(wrapped).dl_log(),
{
    JustBuilder::new(wrapped)
}

} // verus!
