//! A caller-held texture: a distinct GPU texture the caller owns and
//! releases independently of the engine's default one.

use vstd::prelude::*;

use crate::commands::{cmds_view, GpuCommand};
use crate::engine::DrawEngine;
use crate::model::{create_texture_transition, delete_texture_transition, update_texture_transition};

verus! {

/// A texture handle owned by the caller. Pass [`Texture::id`] as the
/// `tex_id` of a draw-parameter struct to sample it; release it with
/// [`Texture::release`] once no unflushed batch references it.
pub struct Texture {
    id: u32,
}

impl Texture {
    /// Allocates a fresh `width * height` RGBA8 texture on `eng`.
    pub fn new(eng: &mut DrawEngine, width: u32, height: u32) -> (r: (Texture, Vec<GpuCommand>))
        requires
            old(eng).wf(),
            old(eng)@.next_tex < u32::MAX,
        ensures
            final(eng).wf(),
            final(eng)@ == create_texture_transition(old(eng)@, width, height).0,
            cmds_view(r.1@) == create_texture_transition(old(eng)@, width, height).1,
            r.0@ == old(eng)@.next_tex,
            0 < r.0@ < final(eng)@.next_tex,
    {
        let (id, out) = eng.create_texture(width, height);
        (Texture { id }, out)
    }

    /// The engine-wide handle of this texture; never the 0 sentinel.
    pub fn id(&self) -> (r: u32)
        ensures
            r == self@,
    {
        self.id
    }

    /// Uploads an RGBA8 sub-rectangle; `data` holds exactly
    /// `width * height` 4-byte texels.
    pub fn update(
        &self,
        eng: &mut DrawEngine,
        x: i32,
        y: i32,
        width: u32,
        height: u32,
        data: Vec<u8>,
    ) -> (r: Vec<GpuCommand>)
        requires
            old(eng).wf(),
            0 < self@ < old(eng)@.next_tex,
            data@.len() == width * height * 4,
        ensures
            final(eng).wf(),
            final(eng)@ == update_texture_transition(
                old(eng)@,
                self@,
                x,
                y,
                width,
                height,
                data@,
            ).0,
            cmds_view(r@) == update_texture_transition(
                old(eng)@,
                self@,
                x,
                y,
                width,
                height,
                data@,
            ).1,
    {
        eng.update_texture(self.id, x, y, width, height, data)
    }

    /// Releases the texture. The caller must be done drawing with it: it
    /// may be neither the engine's bound texture nor its default one.
    pub fn release(self, eng: &mut DrawEngine) -> (r: Vec<GpuCommand>)
        requires
            old(eng).wf(),
            self@ != 0,
            self@ != old(eng)@.cur_tex,
            self@ != old(eng)@.default_tex,
        ensures
            final(eng).wf(),
            final(eng)@ == old(eng)@,
            cmds_view(r@) == delete_texture_transition(old(eng)@, self@).1,
    {
        eng.delete_texture(self.id)
    }
}

impl View for Texture {
    type V = u32;

    closed spec fn view(&self) -> u32 {
        self.id
    }
}

} // verus!
