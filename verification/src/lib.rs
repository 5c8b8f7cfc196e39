//! Verified control logic of a five-channel bench power supply.

pub mod action_laws;
pub mod app;
pub mod arb;
pub mod awg;
pub mod banner_laws;
pub mod board;
pub mod boot_core;
pub mod boot_display;
pub mod boot_laws;
pub mod boot_seal;
pub mod boot_shared;
pub mod boot_usb;
pub mod canvas;
pub mod device_laws;
pub mod dispatch;
pub mod display_dma;
pub mod effect_laws;
pub mod encoder_queue;
pub mod executor;
pub mod firmware;
pub mod firmware_service;
pub mod flash_probe;
pub mod framebuffer;
pub mod host_laws;
pub mod input_laws;
pub mod input_policy;
pub mod limits;
pub mod little_endian;
pub mod load;
pub mod monitoring;
pub mod negotiator;
pub mod painting_laws;
pub mod pd;
pub mod power;
pub mod power_laws;
pub mod protection;
pub mod protection_laws;
pub mod protocol;
pub mod record;
pub mod reducer;
pub mod reducer_laws;
pub mod reset_cause;
pub mod reset_marker;
pub mod screen_laws;
pub mod settings;
pub mod settings_store;
pub mod storage_laws;
pub mod supply_laws;
pub mod text;
pub mod tps55289;
pub mod ui_content;
pub mod usb_command;
pub mod usb_output;
pub mod usb_protocol;
pub mod view;
pub mod view_awg;
pub mod view_detail;
pub mod view_menu;
pub mod view_power;
pub mod view_projection;
pub mod waveform;
pub mod waveform_laws;
