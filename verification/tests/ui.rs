use headless_render::ui::{UiPlugin, UiSetupStep, UiStage, UiSystem};

#[test]
fn build_lists_the_setup_steps_in_order() {
    let steps = UiPlugin.build();
    assert_eq!(
        steps,
        vec![
            UiSetupStep::AddSystem { stage: UiStage::PostUpdate, system: UiSystem::UiUpdate },
            UiSetupStep::AddSystem { stage: UiStage::PostUpdate, system: UiSystem::Label },
            UiSetupStep::AddSystem { stage: UiStage::Draw, system: UiSystem::DrawLabel },
            UiSetupStep::AddUiGraph,
        ]
    );
}

#[test]
fn build_is_the_same_for_the_default_plugin() {
    assert_eq!(UiPlugin::default().build(), UiPlugin.build());
}
