use vstd::prelude::*;
use imgui::ImGui;

verus! {

/// The context of the user interface library. Nothing of what it holds is
/// visible here; what the renderer has to do with is named by
/// [`atlas_extent`] and [`registered_atlas`].
#[verifier::external_type_specification]
#[verifier::external_body]
pub struct ExImGui(imgui::ImGui);

/// Width and height in pixels of the font atlas that a context has built
/// from its fonts.
pub uninterp spec fn atlas_extent(ctx: ImGui) -> (u32, u32);

/// The texture name that a context has been told for its font atlas, and
/// that it hands back with the draw commands of its frames.
pub uninterp spec fn registered_atlas(ctx: ImGui) -> usize;

/// Asks the context for the size of its font atlas, with
/// `ImGui::prepare_texture`: the context builds the atlas where it has not
/// yet, and lends it to a callback, which picks its width and height. The
/// two numbers are those of the atlas that the context holds from then on.
#[verifier::external_body]
pub(crate) fn atlas_size(ctx: &mut ImGui) -> (size: (u32, u32))
    ensures
        size == atlas_extent(*final(ctx)),
{
    ctx.prepare_texture(|atlas| (atlas.width, atlas.height))
}

/// Tells the context the name of the texture that holds its font atlas,
/// with `ImGui::set_texture_id`, which writes the name down as the atlas's
/// texture id. From then on that name is the one the context has been told.
#[verifier::external_body]
pub(crate) fn register_atlas(ctx: &mut ImGui, texture: u32)
    ensures
        registered_atlas(*final(ctx)) == texture as usize,
{
    ctx.set_texture_id(texture as usize)
}

} // verus!
