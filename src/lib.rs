//! Simulated keyboard input for a target process: symbolic key and modifier
//! names, key actions, and the allow-list that guards which presses are made.
mod handler;
mod keyboard;
mod keycode;
mod modifier;
mod text;

pub use handler::{
    allow_list_of, authorization, loading_is_repeatable, modifier_list, request_outcome,
    requested_action, requested_modifier, AllowList, Config, ConfigError, Field, KeyEntry,
    KeyPress, KeyRequest, KeyboardHandler, PolicyError, RequestError, RequestField,
};
pub use keyboard::{
    cycle_posts_down_then_up, next_press_step, press_run, press_step, InjectionError, KeyboardAction,
    Pid, PressStep, VirtualKeyboard,
};
pub use keycode::{
    char_keycode, digit_codes, keycode_from_char, keycode_from_lowercase, keycode_from_str,
    keycode_of_name, letter_codes, named_keycode, Keycode,
};
pub use modifier::{
    alternate_synonyms, modifier_from_lowercase, modifier_from_str, modifier_name_case_insensitive,
    modifier_of_name, Modifier,
};
pub use text::{lower_of, same_text};
