//! The GPU resource manager: ownership of the vertex array and buffer
//! handles, and the exact command sequences that populate and release them.

use vstd::prelude::*;
use crate::command::Command;
use crate::geometry::{
    triangle_vertex_bytes, vertex_bytes, COMPONENTS_PER_VERTEX, POSITION_ATTRIB_OFFSET,
    POSITION_ATTRIB_SLOT, VERTEX_STRIDE_BYTES,
};

verus! {

/// GPU-resident vertex data: a buffer object holding the triangle's packed
/// positions and a vertex array object describing their layout.
///
/// The value is the sole owner of the two handles. It is neither `Clone` nor
/// `Copy`, and [`VertexGeometry::release_commands`] consumes it, so the
/// release sequence can be obtained at most once per value.
pub struct VertexGeometry {
    vao: u32,
    vbo: u32,
}

/// `cmds` is exactly the sequence that populates GPU state for the triangle:
/// bind the vertex array, bind the buffer, upload the vertex bytes, enable
/// the position attribute, and describe its layout.
pub open spec fn is_setup_sequence(cmds: Seq<Command>, vao: u32, vbo: u32) -> bool {
    &&& cmds.len() == 5
    &&& cmds[0] == (Command::BindVertexArray { vao })
    &&& cmds[1] == (Command::BindBuffer { vbo })
    &&& cmds[2] matches Command::UploadVertexData { bytes } && bytes@ == triangle_vertex_bytes()
    &&& cmds[3] == (Command::EnableAttribArray { slot: POSITION_ATTRIB_SLOT })
    &&& cmds[4] == (Command::DescribeAttrib {
        slot: POSITION_ATTRIB_SLOT,
        components: COMPONENTS_PER_VERTEX,
        stride_bytes: VERTEX_STRIDE_BYTES,
        offset_bytes: POSITION_ATTRIB_OFFSET,
    })
}

/// `cmds` is exactly the sequence that releases the geometry: the vertex
/// array object first, then the buffer object, an order some GPU
/// implementations require to avoid dangling bindings.
pub open spec fn is_release_sequence(cmds: Seq<Command>, vao: u32, vbo: u32) -> bool {
    &&& cmds.len() == 2
    &&& cmds[0] == (Command::DeleteVertexArray { vao })
    &&& cmds[1] == (Command::DeleteBuffer { vbo })
}

impl VertexGeometry {
    /// Name of the owned vertex array object.
    pub closed spec fn vao_id(self) -> u32 {
        self.vao
    }

    /// Name of the owned buffer object.
    pub closed spec fn vbo_id(self) -> u32 {
        self.vbo
    }

    /// Takes ownership of freshly created vertex-array and buffer handles.
    pub fn new(vao: u32, vbo: u32) -> (geometry: VertexGeometry)
        ensures
            geometry.vao_id() == vao,
            geometry.vbo_id() == vbo,
    {
        VertexGeometry { vao, vbo }
    }

    /// The vertex array object's name.
    pub fn vao(&self) -> (vao: u32)
        ensures
            vao == self.vao_id(),
    {
        self.vao
    }

    /// The buffer object's name.
    pub fn vbo(&self) -> (vbo: u32)
        ensures
            vbo == self.vbo_id(),
    {
        self.vbo
    }

    /// The commands that allocate nothing but populate everything: binding
    /// both handles, uploading the triangle's bytes, and configuring
    /// attribute slot 0 as three 32-bit floats with stride 12 and offset 0.
    pub fn setup_commands(&self) -> (cmds: Vec<Command>)
        ensures
            is_setup_sequence(cmds@, self.vao_id(), self.vbo_id()),
    {
        let mut cmds: Vec<Command> = Vec::new();
        cmds.push(Command::BindVertexArray { vao: self.vao });
        cmds.push(Command::BindBuffer { vbo: self.vbo });
        cmds.push(Command::UploadVertexData { bytes: vertex_bytes() });
        cmds.push(Command::EnableAttribArray { slot: POSITION_ATTRIB_SLOT });
        cmds.push(Command::DescribeAttrib {
            slot: POSITION_ATTRIB_SLOT,
            components: COMPONENTS_PER_VERTEX,
            stride_bytes: VERTEX_STRIDE_BYTES,
            offset_bytes: POSITION_ATTRIB_OFFSET,
        });
        cmds
    }

    /// The commands that delete the geometry, array before buffer. Consumes
    /// the value: once released, the handles cannot be used or released
    /// again through this type.
    pub fn release_commands(self) -> (cmds: Vec<Command>)
        ensures
            is_release_sequence(cmds@, self.vao_id(), self.vbo_id()),
    {
        let mut cmds: Vec<Command> = Vec::new();
        cmds.push(Command::DeleteVertexArray { vao: self.vao });
        cmds.push(Command::DeleteBuffer { vbo: self.vbo });
        cmds
    }
}

} // verus!
