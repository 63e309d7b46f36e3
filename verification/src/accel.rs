//! The command buffer through which textures are processed outside the library:
//! every texture operation is recorded as a command naming texture handles by id,
//! and the buffer is handed out in one piece when results are needed.
//!
//! A command is one command byte, the big endian id of the texture it acts on,
//! for commands that create a texture the big endian id of the new texture, and
//! then its arguments, each big endian.
use vstd::prelude::*;

verus! {

/// The big endian bytes of a `u64`.
pub open spec fn be_u64(x: u64) -> Seq<u8> {
    seq![
        (x >> 56u64) as u8,
        (x >> 48u64) as u8,
        (x >> 40u64) as u8,
        (x >> 32u64) as u8,
        (x >> 24u64) as u8,
        (x >> 16u64) as u8,
        (x >> 8u64) as u8,
        x as u8,
    ]
}

/// The big endian bytes of a `u32`.
pub open spec fn be_u32(x: u32) -> Seq<u8> {
    seq![(x >> 24u32) as u8, (x >> 16u32) as u8, (x >> 8u32) as u8, x as u8]
}

/// The big endian bytes of an `i64`, in two's complement.
pub open spec fn be_i64(x: i64) -> Seq<u8> {
    be_u64(x as u64)
}

fn push_u64(buf: &mut Vec<u8>, x: u64)
    ensures
        final(buf)@ == old(buf)@ + be_u64(x),
{
    buf.push((x >> 56u64) as u8);
    buf.push((x >> 48u64) as u8);
    buf.push((x >> 40u64) as u8);
    buf.push((x >> 32u64) as u8);
    buf.push((x >> 24u64) as u8);
    buf.push((x >> 16u64) as u8);
    buf.push((x >> 8u64) as u8);
    buf.push(x as u8);
    assert(buf@ =~= old(buf)@ + be_u64(x));
}

fn push_u32(buf: &mut Vec<u8>, x: u32)
    ensures
        final(buf)@ == old(buf)@ + be_u32(x),
{
    buf.push((x >> 24u32) as u8);
    buf.push((x >> 16u32) as u8);
    buf.push((x >> 8u32) as u8);
    buf.push(x as u8);
    assert(buf@ =~= old(buf)@ + be_u32(x));
}

/// A handle to a texture held outside the library.
#[derive(Debug, Clone, Copy, PartialEq, Eq)]
pub struct WasmTextureHandle {
    pub id: u64,
    /// The dimensions of the texture, where they are known without asking.
    pub dimensions: Option<(u32, u32)>,
}

impl WasmTextureHandle {
    /// Returns the id of the texture.
    pub fn id(&self) -> (r: u64)
        ensures
            r == self.id,
    {
        self.id
    }
}

/// The command buffers handed out by a flush.
pub struct FlushedCommands {
    pub command_buffer: Vec<u8>,
    /// Input buffers that the commands refer to, kept alive until the commands have run.
    pub arcs_in_command_buffer: Vec<Vec<u8>>,
}

/// The state of the texture command buffer.
pub struct WasmAcceleratorState {
    pub id_counter: u64,
    pub command_buffer: Vec<u8>,
    pub arcs_in_command_buffer: Vec<Vec<u8>>,
}

/// The command that creates a blank texture `id` of the given size.
pub open spec fn new_texture_command(id: u64, width: u32, height: u32) -> Seq<u8> {
    seq![1u8] + be_u64(id) + be_u32(width) + be_u32(height)
}

/// The command that draws texture `with_image` on texture `target` at `(x, y)`.
pub open spec fn overlay_command(target: u64, with_image: u64, x: i64, y: i64) -> Seq<u8> {
    seq![7u8] + be_u64(target) + be_u64(with_image) + be_i64(x) + be_i64(y)
}

/// The command that drops a texture.
pub open spec fn drop_command(id: u64) -> Seq<u8> {
    seq![0u8] + be_u64(id)
}

impl WasmAcceleratorState {
    /// A state with no textures and no commands.
    pub fn new() -> (r: WasmAcceleratorState)
        ensures
            r.id_counter == 0,
            r.command_buffer@ == Seq::<u8>::empty(),
            r.arcs_in_command_buffer@ == Seq::<Vec<u8>>::empty(),
    {
        WasmAcceleratorState { id_counter: 0, command_buffer: Vec::new(), arcs_in_command_buffer: Vec::new() }
    }

    /// Allocates a handle with the next id, with its dimensions if they are known.
    pub fn new_handle(&mut self, init_dimension: Option<(u32, u32)>) -> (r: WasmTextureHandle)
        requires
            old(self).id_counter < u64::MAX,
        ensures
            r.id == old(self).id_counter,
            r.dimensions == init_dimension,
            final(self).id_counter == old(self).id_counter + 1,
            final(self).command_buffer == old(self).command_buffer,
            final(self).arcs_in_command_buffer == old(self).arcs_in_command_buffer,
    {
        let handle = WasmTextureHandle { id: self.id_counter, dimensions: init_dimension };
        self.id_counter = self.id_counter + 1;
        handle
    }

    /// Hands out the recorded commands and clears the buffers, or returns `None` when
    /// there are no commands.
    pub fn flush_command_buffer(&mut self) -> (r: Option<FlushedCommands>)
        ensures
            final(self).id_counter == old(self).id_counter,
            old(self).command_buffer@.len() == 0 ==> r is None,
            old(self).command_buffer@.len() == 0 ==> final(self).command_buffer@ == old(self).command_buffer@,
            old(self).command_buffer@.len() == 0 ==> final(self).arcs_in_command_buffer@ == old(self).arcs_in_command_buffer@,
            old(self).command_buffer@.len() > 0 ==> r is Some,
            r matches Some(f) ==> f.command_buffer@ == old(self).command_buffer@,
            r matches Some(f) ==> f.arcs_in_command_buffer@ == old(self).arcs_in_command_buffer@,
            r is Some ==> final(self).command_buffer@.len() == 0,
            r is Some ==> final(self).arcs_in_command_buffer@.len() == 0,
    {
        if self.command_buffer.len() == 0 {
            return None;
        }
        let mut command_buffer: Vec<u8> = Vec::new();
        let mut arcs_in_command_buffer: Vec<Vec<u8>> = Vec::new();
        std::mem::swap(&mut command_buffer, &mut self.command_buffer);
        std::mem::swap(&mut arcs_in_command_buffer, &mut self.arcs_in_command_buffer);
        Some(FlushedCommands { command_buffer, arcs_in_command_buffer })
    }

    /// Records that a texture is dropped.
    pub fn drop_handle(&mut self, handle: &WasmTextureHandle)
        ensures
            final(self).id_counter == old(self).id_counter,
            final(self).command_buffer@ == old(self).command_buffer@ + drop_command(handle.id),
            final(self).arcs_in_command_buffer == old(self).arcs_in_command_buffer,
    {
        self.command_buffer.push(0);
        push_u64(&mut self.command_buffer, handle.id);
        assert(self.command_buffer@ =~= old(self).command_buffer@ + drop_command(handle.id));
    }

    /// Records the creation of a blank texture of the given size.
    pub fn new_texture(&mut self, width: u32, height: u32) -> (r: WasmTextureHandle)
        requires
            old(self).id_counter < u64::MAX,
        ensures
            r.id == old(self).id_counter,
            r.dimensions == Some((width, height)),
            final(self).id_counter == old(self).id_counter + 1,
            final(self).command_buffer@ == old(self).command_buffer@ + new_texture_command(
                r.id,
                width,
                height,
            ),
            final(self).arcs_in_command_buffer == old(self).arcs_in_command_buffer,
    {
        let handle = self.new_handle(Some((width, height)));
        self.command_buffer.push(1);
        push_u64(&mut self.command_buffer, handle.id);
        push_u32(&mut self.command_buffer, width);
        push_u32(&mut self.command_buffer, height);
        assert(self.command_buffer@ =~= old(self).command_buffer@ + new_texture_command(
            handle.id,
            width,
            height,
        ));
        handle
    }

    /// Records the decoding of an encoded image. `address` is where the bytes of
    /// `buffer` lie in memory; the buffer is kept until the commands have run.
    pub fn decode_texture(&mut self, buffer: Vec<u8>, address: u64) -> (r: WasmTextureHandle)
        requires
            old(self).id_counter < u64::MAX,
        ensures
            r.id == old(self).id_counter,
            r.dimensions is None,
            final(self).id_counter == old(self).id_counter + 1,
            final(self).command_buffer@ == old(self).command_buffer@ + seq![2u8] + be_u64(r.id)
                + be_u64(address) + be_u64(buffer@.len() as u64),
            final(self).arcs_in_command_buffer@ == old(self).arcs_in_command_buffer@.push(buffer),
    {
        let handle = self.new_handle(None);
        let len = buffer.len() as u64;
        self.command_buffer.push(2);
        push_u64(&mut self.command_buffer, handle.id);
        push_u64(&mut self.command_buffer, address);
        push_u64(&mut self.command_buffer, len);
        self.arcs_in_command_buffer.push(buffer);
        handle
    }

    /// Records a command that creates a texture from `source`: one byte `command`, the
    /// source id, the new id, then `args`.
    fn derive_texture(
        &mut self,
        source: &WasmTextureHandle,
        command: u8,
        dims: Option<(u32, u32)>,
        args: &Vec<u8>,
    ) -> (r: WasmTextureHandle)
        requires
            old(self).id_counter < u64::MAX,
        ensures
            r.id == old(self).id_counter,
            r.dimensions == dims,
            final(self).id_counter == old(self).id_counter + 1,
            final(self).command_buffer@ == old(self).command_buffer@ + seq![command] + be_u64(
                source.id,
            ) + be_u64(r.id) + args@,
            final(self).arcs_in_command_buffer == old(self).arcs_in_command_buffer,
    {
        let handle = self.new_handle(dims);
        self.command_buffer.push(command);
        push_u64(&mut self.command_buffer, source.id);
        push_u64(&mut self.command_buffer, handle.id);
        let mut i: usize = 0;
        let ghost before = self.command_buffer@;
        while i < args.len()
            invariant
                i <= args@.len(),
                self.command_buffer@ == before + args@.take(i as int),
                self.id_counter == old(self).id_counter + 1,
                self.arcs_in_command_buffer == old(self).arcs_in_command_buffer,
            decreases args@.len() - i,
        {
            self.command_buffer.push(args[i]);
            i = i + 1;
            assert(self.command_buffer@ =~= before + args@.take(i as int));
        }
        assert(args@.take(args@.len() as int) =~= args@);
        assert(self.command_buffer@ =~= old(self).command_buffer@ + seq![command] + be_u64(source.id)
            + be_u64(handle.id) + args@);
        handle
    }

    /// Records the creation of a standalone copy of a texture.
    pub fn create_copy(&mut self, source: &WasmTextureHandle) -> (r: WasmTextureHandle)
        requires
            old(self).id_counter < u64::MAX,
        ensures
            r.id == old(self).id_counter,
            r.dimensions == source.dimensions,
            final(self).id_counter == old(self).id_counter + 1,
            final(self).command_buffer@ == old(self).command_buffer@ + seq![3u8] + be_u64(source.id)
                + be_u64(r.id),
            final(self).arcs_in_command_buffer == old(self).arcs_in_command_buffer,
    {
        let args: Vec<u8> = Vec::new();
        let r = self.derive_texture(source, 3, source.dimensions, &args);
        assert(args@ =~= Seq::<u8>::empty());
        assert(self.command_buffer@ =~= old(self).command_buffer@ + seq![3u8] + be_u64(source.id)
            + be_u64(r.id));
        r
    }

    /// Records the creation of a view of part of a texture.
    pub fn slice(&mut self, source: &WasmTextureHandle, x: u32, y: u32, width: u32, height: u32) -> (r:
        WasmTextureHandle)
        requires
            old(self).id_counter < u64::MAX,
        ensures
            r.id == old(self).id_counter,
            r.dimensions == source.dimensions,
            final(self).id_counter == old(self).id_counter + 1,
            final(self).command_buffer@ == old(self).command_buffer@ + seq![4u8] + be_u64(source.id)
                + be_u64(r.id) + be_u32(x) + be_u32(y) + be_u32(width) + be_u32(height),
            final(self).arcs_in_command_buffer == old(self).arcs_in_command_buffer,
    {
        let mut args: Vec<u8> = Vec::new();
        push_u32(&mut args, x);
        push_u32(&mut args, y);
        push_u32(&mut args, width);
        push_u32(&mut args, height);
        let r = self.derive_texture(source, 4, source.dimensions, &args);
        assert(self.command_buffer@ =~= old(self).command_buffer@ + seq![4u8] + be_u64(source.id)
            + be_u64(r.id) + be_u32(x) + be_u32(y) + be_u32(width) + be_u32(height));
        r
    }

    /// Records the creation of a resized copy of a texture.
    pub fn resized(&mut self, source: &WasmTextureHandle, width: u32, height: u32) -> (r: WasmTextureHandle)
        requires
            old(self).id_counter < u64::MAX,
        ensures
            r.id == old(self).id_counter,
            r.dimensions == Some((width, height)),
            final(self).id_counter == old(self).id_counter + 1,
            final(self).command_buffer@ == old(self).command_buffer@ + seq![5u8] + be_u64(source.id)
                + be_u64(r.id) + be_u32(width) + be_u32(height),
            final(self).arcs_in_command_buffer == old(self).arcs_in_command_buffer,
    {
        let mut args: Vec<u8> = Vec::new();
        push_u32(&mut args, width);
        push_u32(&mut args, height);
        let r = self.derive_texture(source, 5, Some((width, height)), &args);
        assert(self.command_buffer@ =~= old(self).command_buffer@ + seq![5u8] + be_u64(source.id)
            + be_u64(r.id) + be_u32(width) + be_u32(height));
        r
    }

    /// Records the creation of a tinted copy of a texture.
    pub fn tinted(&mut self, source: &WasmTextureHandle, color: [u8; 4]) -> (r: WasmTextureHandle)
        requires
            old(self).id_counter < u64::MAX,
        ensures
            r.id == old(self).id_counter,
            r.dimensions == source.dimensions,
            final(self).id_counter == old(self).id_counter + 1,
            final(self).command_buffer@ == old(self).command_buffer@ + seq![6u8] + be_u64(source.id)
                + be_u64(r.id) + color@,
            final(self).arcs_in_command_buffer == old(self).arcs_in_command_buffer,
    {
        let mut args: Vec<u8> = Vec::new();
        args.push(color[0]);
        args.push(color[1]);
        args.push(color[2]);
        args.push(color[3]);
        assert(args@ =~= color@);
        self.derive_texture(source, 6, source.dimensions, &args)
    }

    /// Records drawing one texture on top of another at `(x, y)`.
    pub fn overlay(&mut self, target: &WasmTextureHandle, with_image: &WasmTextureHandle, x: i64, y: i64)
        ensures
            final(self).id_counter == old(self).id_counter,
            final(self).command_buffer@ == old(self).command_buffer@ + overlay_command(
                target.id,
                with_image.id,
                x,
                y,
            ),
            final(self).arcs_in_command_buffer == old(self).arcs_in_command_buffer,
    {
        self.command_buffer.push(7);
        push_u64(&mut self.command_buffer, target.id);
        push_u64(&mut self.command_buffer, with_image.id);
        push_u64(&mut self.command_buffer, x as u64);
        push_u64(&mut self.command_buffer, y as u64);
        assert(self.command_buffer@ =~= old(self).command_buffer@ + overlay_command(
            target.id,
            with_image.id,
            x,
            y,
        ));
    }
}

/// Successive texture handles get distinct ids.
pub proof fn lemma_handles_distinct(
    s0: WasmAcceleratorState,
    s1: WasmAcceleratorState,
    s2: WasmAcceleratorState,
    h1: WasmTextureHandle,
    h2: WasmTextureHandle,
)
    requires
        h1.id == s0.id_counter,
        s1.id_counter == s0.id_counter + 1,
        s1.id_counter <= s2.id_counter,
        h2.id == s2.id_counter,
    ensures
        h1.id != h2.id,
{
}

/// Hands out ids for audio handles in turn.
pub struct AudioHandleIds {
    pub next: u32,
}

impl AudioHandleIds {
    /// Returns the next id; ids run out at `u32::MAX`.
    pub fn next_id(&mut self) -> (r: u32)
        requires
            old(self).next < u32::MAX,
        ensures
            r == old(self).next,
            final(self).next == old(self).next + 1,
    {
        let id = self.next;
        self.next = self.next + 1;
        id
    }
}

} // verus!
