//! Overlay renderer: composites the frame's UI on top of the primary pass.
//!
//! The host's UI toolkit lays out and tessellates the declared widgets and
//! reports the result as a `UiOutput`: the primitives to draw, the textures
//! it newly needs, the textures it no longer needs, and the display scale.
//! This module records the overlay work into the frame's command stream in
//! the one order that is safe: texture uploads first, then the buffer
//! upload and a load-existing pass over the same target, and texture frees
//! only after that pass.

use std::collections::HashSet;
use vstd::prelude::*;

use crate::renderer::Frame;
use crate::renderer::GpuCommand;
use crate::renderer::LoadOp;
use crate::renderer::Renderer;

verus! {

broadcast use vstd::std_specs::hash::group_hash_axioms, vstd::seq_lib::group_seq_properties;

/// What the UI toolkit reported for one run of the frame's UI: tessellated
/// primitives, the per-run texture delta, and the display scale in
/// thousandths of a pixel per point.
pub struct UiOutput {
    pub textures_to_set: Vec<u64>,
    pub textures_to_free: Vec<u64>,
    pub primitive_count: u64,
    pub pixels_per_point_milli: u32,
}

/// The screen geometry an overlay pass is drawn for: the target size in
/// pixels and the display scale in thousandths of a pixel per point.
#[derive(Clone, Copy, Debug, PartialEq, Eq, Structural)]
pub struct ScreenDescriptor {
    pub width: u32,
    pub height: u32,
    pub pixels_per_point_milli: u32,
}

/// Overlay renderer state: the set of texture ids currently resident on
/// the GPU for the UI, kept in step with the per-run texture deltas.
pub struct GuiRenderer {
    textures: HashSet<u64>,
}

impl GuiRenderer {
    /// The texture ids currently resident for the UI.
    pub closed spec fn spec_textures(self) -> Set<u64> {
        self.textures@
    }

    /// An overlay renderer for the surface `renderer` presents to, with no
    /// resident textures yet.
    pub fn new(renderer: &Renderer) -> (g: GuiRenderer)
        ensures
            g.spec_textures() == Set::<u64>::empty(),
    {
        GuiRenderer { textures: HashSet::new() }
    }

    /// Record the overlay for one frame.
    ///
    /// Appends to the frame's command stream, in order: one texture upload
    /// per texture the UI newly needs, the buffer upload, one pass over the
    /// same target sized to the current surface that keeps existing
    /// contents and draws the tessellated primitives, and one free per
    /// texture the UI no longer needs. The resident-texture set gains the
    /// uploaded ids and then loses the freed ids.
    #[verifier::loop_isolation(false)]
    pub fn render(&mut self, frame: &mut Frame, renderer: &Renderer, ui: &UiOutput)
        ensures
            final(frame).width == old(frame).width,
            final(frame).height == old(frame).height,
            final(frame).commands@ == old(frame).commands@
                + ui.textures_to_set@.map_values(|id: u64| GpuCommand::UploadTexture { id })
                + seq![GpuCommand::UpdateBuffers {
                    width: renderer.spec_size().width,
                    height: renderer.spec_size().height,
                    pixels_per_point_milli: ui.pixels_per_point_milli,
                }]
                + seq![GpuCommand::Pass {
                    load: LoadOp::LoadExisting,
                    width: renderer.spec_size().width,
                    height: renderer.spec_size().height,
                    draws: ui.primitive_count,
                }]
                + ui.textures_to_free@.map_values(|id: u64| GpuCommand::FreeTexture { id }),
            final(self).spec_textures() == old(self).spec_textures()
                .union(ui.textures_to_set@.to_set())
                .difference(ui.textures_to_free@.to_set()),
    {
        let ghost orig_commands = frame.commands@;
        let ghost orig_textures = self.textures@;
        let ghost set_cmds = ui.textures_to_set@.map_values(
            |id: u64| GpuCommand::UploadTexture { id },
        );

        let mut i: usize = 0;
        while i < ui.textures_to_set.len()
            invariant
                i <= ui.textures_to_set@.len(),
                frame.commands@ == orig_commands + set_cmds.take(i as int),
                self.textures@ == orig_textures.union(ui.textures_to_set@.take(i as int).to_set()),
                frame.width == old(frame).width,
                frame.height == old(frame).height,
            decreases ui.textures_to_set@.len() - i,
        {
            let id = ui.textures_to_set[i];
            frame.commands.push(GpuCommand::UploadTexture { id });
            self.textures.insert(id);
            proof {
                set_cmds.lemma_take_succ_push(i as int);
                assert(set_cmds[i as int] == GpuCommand::UploadTexture { id });
                assert(ui.textures_to_set@.take(i as int + 1) =~= ui.textures_to_set@.take(i as int).push(
                    id,
                ));
                assert(orig_textures.union(ui.textures_to_set@.take(i as int + 1).to_set())
                    =~= orig_textures.union(ui.textures_to_set@.take(i as int).to_set()).insert(
                    id,
                ));
            }
            i = i + 1;
        }
        proof {
            assert(set_cmds.take(ui.textures_to_set@.len() as int) =~= set_cmds);
            assert(ui.textures_to_set@.take(ui.textures_to_set@.len() as int)
                =~= ui.textures_to_set@);
        }

        let size = renderer.size();
        let screen_desc = ScreenDescriptor {
            width: size.width,
            height: size.height,
            pixels_per_point_milli: ui.pixels_per_point_milli,
        };
        frame.commands.push(GpuCommand::UpdateBuffers {
            width: screen_desc.width,
            height: screen_desc.height,
            pixels_per_point_milli: screen_desc.pixels_per_point_milli,
        });
        frame.commands.push(GpuCommand::Pass {
            load: LoadOp::LoadExisting,
            width: screen_desc.width,
            height: screen_desc.height,
            draws: ui.primitive_count,
        });

        let ghost mid_commands = frame.commands@;
        let ghost mid_textures = self.textures@;
        let ghost free_cmds = ui.textures_to_free@.map_values(
            |id: u64| GpuCommand::FreeTexture { id },
        );

        let mut j: usize = 0;
        while j < ui.textures_to_free.len()
            invariant
                j <= ui.textures_to_free@.len(),
                frame.commands@ == mid_commands + free_cmds.take(j as int),
                self.textures@ == mid_textures.difference(
                    ui.textures_to_free@.take(j as int).to_set(),
                ),
                frame.width == old(frame).width,
                frame.height == old(frame).height,
            decreases ui.textures_to_free@.len() - j,
        {
            let id = ui.textures_to_free[j];
            frame.commands.push(GpuCommand::FreeTexture { id });
            self.textures.remove(&id);
            proof {
                free_cmds.lemma_take_succ_push(j as int);
                assert(free_cmds[j as int] == GpuCommand::FreeTexture { id });
                assert(ui.textures_to_free@.take(j as int + 1) =~= ui.textures_to_free@.take(
                    j as int,
                ).push(id));
                assert(mid_textures.difference(ui.textures_to_free@.take(j as int + 1).to_set())
                    =~= mid_textures.difference(
                    ui.textures_to_free@.take(j as int).to_set(),
                ).remove(id));
            }
            j = j + 1;
        }
        proof {
            assert(free_cmds.take(ui.textures_to_free@.len() as int) =~= free_cmds);
            assert(ui.textures_to_free@.take(ui.textures_to_free@.len() as int)
                =~= ui.textures_to_free@);
            assert(frame.commands@ =~= orig_commands + set_cmds
                + seq![GpuCommand::UpdateBuffers {
                    width: renderer.spec_size().width,
                    height: renderer.spec_size().height,
                    pixels_per_point_milli: ui.pixels_per_point_milli,
                }]
                + seq![GpuCommand::Pass {
                    load: LoadOp::LoadExisting,
                    width: renderer.spec_size().width,
                    height: renderer.spec_size().height,
                    draws: ui.primitive_count,
                }] + free_cmds);
        }
    }
}

} // verus!
