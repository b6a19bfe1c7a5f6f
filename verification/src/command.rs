//! Commands emitted by the library for the runtime shell to execute.
//!
//! The library decides *what* the window system and the GPU must do; the
//! shell that owns the live context performs each command in order. Every
//! command is a plain value, so contracts can pin emitted sequences exactly.

use vstd::prelude::*;

verus! {

/// One instruction for the window system or the GPU command stream.
///
/// GPU handles are carried as the raw `u32` names the GPU assigned them.
/// Color channels are IEEE 754 binary32 bit patterns, since the library does
/// no floating-point arithmetic of its own.
#[derive(Clone, Debug, PartialEq, Eq)]
pub enum Command {
    /// Set the color applied by every later `ClearColorBuffer`.
    SetClearColor { red_bits: u32, green_bits: u32, blue_bits: u32, alpha_bits: u32 },
    /// Bind the vertex array object `vao`.
    BindVertexArray { vao: u32 },
    /// Bind the buffer object `vbo` as the array buffer.
    BindBuffer { vbo: u32 },
    /// Upload `bytes` into the bound array buffer with a static,
    /// GPU-read-dominant usage hint.
    UploadVertexData { bytes: Vec<u8> },
    /// Enable vertex attribute slot `slot`.
    EnableAttribArray { slot: u32 },
    /// Declare attribute `slot` as `components` consecutive non-normalized
    /// 32-bit floats, `stride_bytes` apart, starting at `offset_bytes`.
    DescribeAttrib { slot: u32, components: u32, stride_bytes: u32, offset_bytes: u32 },
    /// Clear the color buffer to the configured clear color.
    ClearColorBuffer,
    /// Draw `vertex_count` vertices as a triangle list, starting at
    /// `first_vertex`.
    DrawTriangles { first_vertex: u32, vertex_count: u32 },
    /// Swap buffers, making the most recent draw calls visible.
    Present,
    /// Tell the surface that its dimensions changed.
    Resize { width: u32, height: u32 },
    /// Ask the event source to schedule a redraw.
    RequestRedraw,
    /// Delete the vertex array object `vao`.
    DeleteVertexArray { vao: u32 },
    /// Delete the buffer object `vbo`.
    DeleteBuffer { vbo: u32 },
    /// Tell the event source to stop dispatching events; the process exits.
    StopEventSource,
}

} // verus!
