//! Meshes: what their buffers look like, and what binds and draws them.
//!
//! A mesh is a buffer of vertices and, where the vertices are shared between
//! triangles, a buffer of indices. The caller uploads both as described here
//! and hands the buffers over; the mesh then says which requests record it
//! into a command buffer.

use vstd::prelude::*;
use crate::command::Command;
use crate::constants::{
    BUFFER_USAGE_INDEX_BUFFER,
    BUFFER_USAGE_TRANSFER_DST,
    BUFFER_USAGE_TRANSFER_SRC,
    BUFFER_USAGE_VERTEX_BUFFER,
    FORMAT_R32G32B32_SFLOAT,
    FORMAT_R32G32_SFLOAT,
    INDEX_TYPE_UINT32,
    MEMORY_PROPERTY_DEVICE_LOCAL,
    MEMORY_PROPERTY_HOST_COHERENT,
    MEMORY_PROPERTY_HOST_VISIBLE,
    VERTEX_INPUT_RATE_VERTEX,
};
use crate::device::Format;
use crate::handles::{Buffer, CommandBuffer};

verus! {

/// The bytes of one vertex: a position, a color and a normal of three
/// single-precision numbers each and a texture coordinate of two, one after
/// the other.
pub const VERTEX_SIZE: u64 = 44;

/// Where the position stands in a vertex.
pub const VERTEX_POSITION_OFFSET: u32 = 0;

/// Where the color stands in a vertex.
pub const VERTEX_COLOR_OFFSET: u32 = 12;

/// Where the normal stands in a vertex.
pub const VERTEX_NORMAL_OFFSET: u32 = 24;

/// Where the texture coordinate stands in a vertex.
pub const VERTEX_UV_OFFSET: u32 = 36;

/// The bytes of one index.
pub const INDEX_SIZE: u64 = 4;

/// The fewest vertices that make a mesh: one triangle.
pub const MIN_VERTEX_COUNT: u32 = 3;

/// How the vertices of one binding follow one another in their buffer.
#[derive(Clone, Copy, PartialEq, Eq, Structural, Debug)]
pub struct VertexInputBindingDescription {
    pub binding: u32,
    pub stride: u32,
    pub input_rate: i32,
}

/// Where one attribute of a vertex stands, and in which format.
#[derive(Clone, Copy, PartialEq, Eq, Structural, Debug)]
pub struct VertexInputAttributeDescription {
    pub location: u32,
    pub binding: u32,
    pub format: Format,
    pub offset: u32,
}

/// A buffer of `instance_count` elements of `instance_size` bytes each, and
/// the properties of the memory to bind to it.
#[derive(Clone, Copy, PartialEq, Eq, Structural, Debug)]
pub struct BufferCreateInfo {
    pub instance_size: u64,
    pub instance_count: u32,
    pub usage: u32,
    pub memory_properties: u32,
}

/// How data reaches the device: `copy_size` bytes are written to a staging
/// buffer that the processor can see, and copied from there to the target
/// buffer in device memory.
#[derive(Clone, Copy, PartialEq, Eq, Structural, Debug)]
pub struct BufferUpload {
    pub staging: BufferCreateInfo,
    pub target: BufferCreateInfo,
    pub copy_size: u64,
}

/// The upload of `count` elements of `size` bytes each into a buffer of the
/// given usage.
pub open spec fn upload(size: u64, count: u32, usage: u32) -> BufferUpload {
    BufferUpload {
        staging: BufferCreateInfo {
            instance_size: size,
            instance_count: count,
            usage: BUFFER_USAGE_TRANSFER_SRC,
            memory_properties: MEMORY_PROPERTY_HOST_VISIBLE | MEMORY_PROPERTY_HOST_COHERENT,
        },
        target: BufferCreateInfo {
            instance_size: size,
            instance_count: count,
            usage: usage | BUFFER_USAGE_TRANSFER_DST,
            memory_properties: MEMORY_PROPERTY_DEVICE_LOCAL,
        },
        copy_size: (size * count) as u64,
    }
}

/// The four attributes of a vertex, at the locations 0 to 3 of binding 0.
pub open spec fn attribute_descriptions() -> Seq<VertexInputAttributeDescription> {
    seq![
        VertexInputAttributeDescription {
            location: 0,
            binding: 0,
            format: Format { raw: FORMAT_R32G32B32_SFLOAT },
            offset: VERTEX_POSITION_OFFSET,
        },
        VertexInputAttributeDescription {
            location: 1,
            binding: 0,
            format: Format { raw: FORMAT_R32G32B32_SFLOAT },
            offset: VERTEX_COLOR_OFFSET,
        },
        VertexInputAttributeDescription {
            location: 2,
            binding: 0,
            format: Format { raw: FORMAT_R32G32B32_SFLOAT },
            offset: VERTEX_NORMAL_OFFSET,
        },
        VertexInputAttributeDescription {
            location: 3,
            binding: 0,
            format: Format { raw: FORMAT_R32G32_SFLOAT },
            offset: VERTEX_UV_OFFSET,
        },
    ]
}

/// The one binding: whole vertices, one per vertex drawn.
pub open spec fn binding_descriptions() -> Seq<VertexInputBindingDescription> {
    seq![
        VertexInputBindingDescription {
            binding: 0,
            stride: VERTEX_SIZE as u32,
            input_rate: VERTEX_INPUT_RATE_VERTEX,
        },
    ]
}

/// The state of a mesh as mathematical values.
pub struct MeshView {
    pub vertex_buffer: Buffer,
    pub vertex_count: u32,
    pub has_index_buffer: bool,
    pub index_buffer: Option<Buffer>,
    pub index_count: u32,
    pub binding_descriptions: Seq<VertexInputBindingDescription>,
    pub attribute_descriptions: Seq<VertexInputAttributeDescription>,
}

impl MeshView {
    /// A mesh has at least one triangle; it has an index buffer exactly if it
    /// has indices; and its vertices are laid out as described.
    pub open spec fn wf(self) -> bool {
        &&& self.vertex_count >= MIN_VERTEX_COUNT
        &&& self.has_index_buffer <==> self.index_buffer is Some
        &&& self.has_index_buffer <==> self.index_count > 0
        &&& self.binding_descriptions == binding_descriptions()
        &&& self.attribute_descriptions == attribute_descriptions()
    }

    /// The requests that bind the mesh: its vertex buffer at binding 0 and,
    /// where it has one, its index buffer of 32-bit indices, both from
    /// their start.
    pub open spec fn bind_commands(self, command_buffer: CommandBuffer) -> Seq<Command> {
        let vertices = seq![
            Command::BindVertexBuffer {
                command_buffer,
                first_binding: 0,
                buffer: self.vertex_buffer,
                offset: 0,
            },
        ];
        match self.index_buffer {
            Some(buffer) => vertices + seq![
                Command::BindIndexBuffer {
                    command_buffer,
                    buffer,
                    offset: 0,
                    index_type: INDEX_TYPE_UINT32,
                },
            ],
            None => vertices,
        }
    }

    /// The request that draws the mesh once: by its indices where it has
    /// any, else by its vertices, all of them.
    pub open spec fn draw_command(self, command_buffer: CommandBuffer) -> Command {
        if self.has_index_buffer {
            Command::DrawIndexed {
                command_buffer,
                index_count: self.index_count,
                instance_count: 1,
                first_index: 0,
                vertex_offset: 0,
                first_instance: 0,
            }
        } else {
            Command::Draw {
                command_buffer,
                vertex_count: self.vertex_count,
                instance_count: 1,
                first_vertex: 0,
                first_instance: 0,
            }
        }
    }
}

/// The buffers of a mesh on the device and the layout of its vertices.
pub struct Mesh {
    vertex_buffer: Buffer,
    vertex_count: u32,
    has_index_buffer: bool,
    index_buffer: Option<Buffer>,
    index_count: u32,
    binding_descriptions: Vec<VertexInputBindingDescription>,
    attribute_descriptions: Vec<VertexInputAttributeDescription>,
}

impl View for Mesh {
    type V = MeshView;

    closed spec fn view(&self) -> MeshView {
        MeshView {
            vertex_buffer: self.vertex_buffer,
            vertex_count: self.vertex_count,
            has_index_buffer: self.has_index_buffer,
            index_buffer: self.index_buffer,
            index_count: self.index_count,
            binding_descriptions: self.binding_descriptions@,
            attribute_descriptions: self.attribute_descriptions@,
        }
    }
}

impl Mesh {
    /// Whether the mesh has a triangle, an index buffer exactly if it has
    /// indices, and the layout described.
    pub open spec fn wf(&self) -> bool {
        self@.wf()
    }

    /// A mesh over the buffers that hold its vertices and, where it has any,
    /// its indices.
    pub fn new(vertex_buffer: Buffer, vertex_count: u32, index_buffer: Option<Buffer>, index_count: u32) -> (r:
        Mesh)
        requires
            vertex_count >= MIN_VERTEX_COUNT,
            index_buffer is Some <==> index_count > 0,
        ensures
            r.wf(),
            r@.vertex_buffer == vertex_buffer,
            r@.vertex_count == vertex_count,
            r@.index_buffer == index_buffer,
            r@.index_count == index_count,
    {
        let (attribute_descriptions, binding_descriptions) = Mesh::setup();
        Mesh {
            vertex_buffer,
            vertex_count,
            has_index_buffer: index_count > 0,
            index_buffer,
            index_count,
            binding_descriptions,
            attribute_descriptions,
        }
    }

    /// The requests that bind the buffers of the mesh.
    pub fn bind(&self, command_buffer: CommandBuffer) -> (r: Vec<Command>)
        requires
            self.wf(),
        ensures
            r@ == self@.bind_commands(command_buffer),
    {
        let mut commands: Vec<Command> = Vec::new();
        commands.push(
            Command::BindVertexBuffer {
                command_buffer,
                first_binding: 0,
                buffer: self.vertex_buffer,
                offset: 0,
            },
        );
        if self.has_index_buffer {
            commands.push(
                Command::BindIndexBuffer {
                    command_buffer,
                    buffer: self.index_buffer.unwrap(),
                    offset: 0,
                    index_type: INDEX_TYPE_UINT32,
                },
            );
        }
        commands
    }

    /// The request that draws the mesh once.
    pub fn draw(&self, command_buffer: CommandBuffer) -> (r: Command)
        ensures
            r == self@.draw_command(command_buffer),
    {
        if self.has_index_buffer {
            Command::DrawIndexed {
                command_buffer,
                index_count: self.index_count,
                instance_count: 1,
                first_index: 0,
                vertex_offset: 0,
                first_instance: 0,
            }
        } else {
            Command::Draw {
                command_buffer,
                vertex_count: self.vertex_count,
                instance_count: 1,
                first_vertex: 0,
                first_instance: 0,
            }
        }
    }

    /// Where each attribute of a vertex stands.
    pub fn get_attribute_descriptions(&self) -> (r: &Vec<VertexInputAttributeDescription>)
        ensures
            r@ == self@.attribute_descriptions,
    {
        &self.attribute_descriptions
    }

    /// How the vertices follow one another.
    pub fn get_binding_descriptions(&self) -> (r: &Vec<VertexInputBindingDescription>)
        ensures
            r@ == self@.binding_descriptions,
    {
        &self.binding_descriptions
    }

    /// How `vertex_count` vertices reach the device. A mesh takes at least
    /// one triangle.
    pub fn create_vertex_buffers(vertex_count: u32) -> (r: BufferUpload)
        requires
            vertex_count >= MIN_VERTEX_COUNT,
        ensures
            r == upload(VERTEX_SIZE, vertex_count, BUFFER_USAGE_VERTEX_BUFFER),
    {
        Mesh::upload(VERTEX_SIZE, vertex_count, BUFFER_USAGE_VERTEX_BUFFER)
    }

    /// How `index_count` indices reach the device; nothing where there is no
    /// index.
    pub fn create_index_buffers(index_count: u32) -> (r: Option<BufferUpload>)
        ensures
            r == if index_count > 0 {
                Some(upload(INDEX_SIZE, index_count, BUFFER_USAGE_INDEX_BUFFER))
            } else {
                None
            },
    {
        if index_count > 0 {
            Some(Mesh::upload(INDEX_SIZE, index_count, BUFFER_USAGE_INDEX_BUFFER))
        } else {
            None
        }
    }

    fn upload(size: u64, count: u32, usage: u32) -> (r: BufferUpload)
        requires
            size <= u32::MAX,
        ensures
            r == upload(size, count, usage),
    {
        assert(size * count <= u64::MAX) by (nonlinear_arith)
            requires
                size <= u32::MAX,
                count <= u32::MAX,
        ;
        BufferUpload {
            staging: BufferCreateInfo {
                instance_size: size,
                instance_count: count,
                usage: BUFFER_USAGE_TRANSFER_SRC,
                memory_properties: MEMORY_PROPERTY_HOST_VISIBLE | MEMORY_PROPERTY_HOST_COHERENT,
            },
                target: BufferCreateInfo {
                instance_size: size,
                instance_count: count,
                usage: usage | BUFFER_USAGE_TRANSFER_DST,
                memory_properties: MEMORY_PROPERTY_DEVICE_LOCAL,
            },
            copy_size: size * (count as u64),
        }
    }

    /// The layout of the vertices: where each attribute stands, and how the
    /// vertices follow one another.
    pub fn setup() -> (r: (Vec<VertexInputAttributeDescription>, Vec<VertexInputBindingDescription>))
        ensures
            r.0@ == attribute_descriptions(),
            r.1@ == binding_descriptions(),
    {
        let mut attribute_descriptions: Vec<VertexInputAttributeDescription> = Vec::new();
        attribute_descriptions.push(
            VertexInputAttributeDescription {
                location: 0,
                binding: 0,
                format: Format { raw: FORMAT_R32G32B32_SFLOAT },
                offset: VERTEX_POSITION_OFFSET,
            },
        );
        attribute_descriptions.push(
            VertexInputAttributeDescription {
                location: 1,
                binding: 0,
                format: Format { raw: FORMAT_R32G32B32_SFLOAT },
                offset: VERTEX_COLOR_OFFSET,
            },
        );
        attribute_descriptions.push(
            VertexInputAttributeDescription {
                location: 2,
                binding: 0,
                format: Format { raw: FORMAT_R32G32B32_SFLOAT },
                offset: VERTEX_NORMAL_OFFSET,
            },
        );
        attribute_descriptions.push(
            VertexInputAttributeDescription {
                location: 3,
                binding: 0,
                format: Format { raw: FORMAT_R32G32_SFLOAT },
                offset: VERTEX_UV_OFFSET,
            },
        );
        let mut binding_descriptions: Vec<VertexInputBindingDescription> = Vec::new();
        binding_descriptions.push(
            VertexInputBindingDescription {
                binding: 0,
                stride: VERTEX_SIZE as u32,
                input_rate: VERTEX_INPUT_RATE_VERTEX,
            },
        );
        (attribute_descriptions, binding_descriptions)
    }
}

} // verus!
