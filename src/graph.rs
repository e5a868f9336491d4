//! Labels of the GUI's render graph and of its render targets.
use vstd::prelude::*;

verus! {

/// The GUI's render subgraph, run on each GUI view.
#[derive(Debug, Hash, PartialEq, Eq, Clone, Copy, Structural)]
pub struct SubGraphEgui;

/// Nodes of the GUI's render subgraph.
#[derive(Debug, Hash, PartialEq, Eq, Clone, Copy, Structural)]
pub enum NodeEgui {
    /// The pass that draws the GUI.
    EguiPass,
}

/// A node that runs [`SubGraphEgui`] on the view it is given.
#[derive(Debug, Hash, PartialEq, Eq, Clone, Copy, Structural)]
pub struct RunEguiSubgraphOnEguiViewNode;

impl RunEguiSubgraphOnEguiViewNode {
    /// The subgraph that this node runs: the GUI's own, and only when the view is a GUI view.
    pub fn subgraph_for(&self, is_egui_view: bool) -> (r: Option<SubGraphEgui>)
        ensures
            r == (if is_egui_view { Some(SubGraphEgui) } else { None::<SubGraphEgui> }),
    {
        if is_egui_view { Some(SubGraphEgui) } else { None }
    }
}

/// The kind of target a GUI context draws into.
#[derive(Debug, PartialEq, Eq, Hash, Clone, Copy, Structural)]
pub enum EguiRenderTargetType {
    /// A window's swap chain.
    Window,
    /// An offscreen image.
    Image,
}

/// Label of the render node that draws one GUI context: the entity's index and
/// generation, and the kind of its target.
#[derive(Debug, Hash, PartialEq, Eq, Clone, Copy, Structural)]
pub struct EguiPass {
    pub entity_index: u32,
    pub entity_generation: u32,
    pub render_target_type: EguiRenderTargetType,
}

impl EguiPass {
    /// The label of the node for a window's context.
    pub fn from_window_entity(entity_index: u32, entity_generation: u32) -> (r: EguiPass)
        ensures
            r.entity_index == entity_index,
            r.entity_generation == entity_generation,
            r.render_target_type == EguiRenderTargetType::Window,
    {
        EguiPass { entity_index, entity_generation, render_target_type: EguiRenderTargetType::Window }
    }

    /// The label of the node for a context that renders to an image.
    pub fn from_render_to_image_entity(entity_index: u32, entity_generation: u32) -> (r: EguiPass)
        ensures
            r.entity_index == entity_index,
            r.entity_generation == entity_generation,
            r.render_target_type == EguiRenderTargetType::Image,
    {
        EguiPass { entity_index, entity_generation, render_target_type: EguiRenderTargetType::Image }
    }
}

/// Which kind of target a new context gets, from whether its entity has a window and
/// whether it renders to an image: none when it has both or neither.
pub fn render_target_type_of(has_window: bool, has_image: bool) -> (r: Option<EguiRenderTargetType>)
    ensures
        r == (if has_window && !has_image {
            Some(EguiRenderTargetType::Window)
        } else if !has_window && has_image {
            Some(EguiRenderTargetType::Image)
        } else {
            None::<EguiRenderTargetType>
        }),
{
    match (has_window, has_image) {
        (true, false) => Some(EguiRenderTargetType::Window),
        (false, true) => Some(EguiRenderTargetType::Image),
        _ => None,
    }
}

} // verus!
