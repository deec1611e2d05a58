[package]
name = "headless_render"
version = "0.1.0"
edition = "2021"
publish = false

[dependencies]
bevy_app = "=0.1.3"
bevy_asset = "=0.1.3"
bevy_ecs = "=0.1.3"
bevy_window = "=0.1.3"
# Called by nothing here. bevy_asset 0.1.3 builds only with its file watcher,
# which is written against this release of notify; later ones lack its API.
notify = "=5.0.0-pre.2"
