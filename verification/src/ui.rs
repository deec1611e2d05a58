//! The UI plugin: what it asks of the application that hosts it.
//!
//! The plugin itself registers nothing. It states, in order, the steps that
//! the host performs on its behalf, so that the schedule is fixed here and the
//! host only carries it out.

use vstd::prelude::*;

verus! {

/// A stage of the host's schedule that UI systems run in.
#[derive(Clone, Copy, Debug, PartialEq, Eq, Structural, Hash)]
pub enum UiStage {
    /// After the application's update stage.
    PostUpdate,
    /// The render stage in which draw calls are recorded.
    Draw,
}

/// A system that the UI plugin brings with it.
#[derive(Clone, Copy, Debug, PartialEq, Eq, Structural, Hash)]
pub enum UiSystem {
    /// Lays out the UI nodes.
    UiUpdate,
    /// Keeps label textures in step with label text.
    Label,
    /// Draws the labels.
    DrawLabel,
}

/// One step of setting the UI up in a host application.
#[derive(Clone, Copy, Debug, PartialEq, Eq, Structural, Hash)]
pub enum UiSetupStep {
    /// Add `system` to `stage` of the schedule.
    AddSystem { stage: UiStage, system: UiSystem },
    /// Add the UI nodes and edges to the render graph.
    AddUiGraph,
}

/// Adds the UI systems and the UI render graph to an application.
#[derive(Clone, Copy, Debug, Default)]
pub struct UiPlugin;

impl UiPlugin {
    /// The steps of the plugin's setup, in the order in which the host takes
    /// them: the layout and label systems after update, the label drawing
    /// system in the draw stage, and the render graph last.
    pub open spec fn setup_steps() -> Seq<UiSetupStep> {
        seq![
            UiSetupStep::AddSystem { stage: UiStage::PostUpdate, system: UiSystem::UiUpdate },
            UiSetupStep::AddSystem { stage: UiStage::PostUpdate, system: UiSystem::Label },
            UiSetupStep::AddSystem { stage: UiStage::Draw, system: UiSystem::DrawLabel },
            UiSetupStep::AddUiGraph,
        ]
    }

    /// Lists the steps that set the plugin up.
    pub fn build(&self) -> (steps: Vec<UiSetupStep>)
        ensures
            steps@ == Self::setup_steps(),
    {
        let mut steps: Vec<UiSetupStep> = Vec::new();
        steps.push(UiSetupStep::AddSystem { stage: UiStage::PostUpdate, system: UiSystem::UiUpdate });
        steps.push(UiSetupStep::AddSystem { stage: UiStage::PostUpdate, system: UiSystem::Label });
        steps.push(UiSetupStep::AddSystem { stage: UiStage::Draw, system: UiSystem::DrawLabel });
        steps.push(UiSetupStep::AddUiGraph);
        assert(steps@ =~= Self::setup_steps());
        steps
    }
}

} // verus!
