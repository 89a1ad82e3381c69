//! Menu navigation engine of a text-mode in-game user interface: the menu
//! stack with its transition protocol, focus tracking coupled to sound
//! feedback, list navigation, configuration rows bound to settings, and the
//! parsing of server records and saved favourites.

mod bmp;
mod config;
mod config_list;
mod geometry;
mod glyph;
mod input;
mod input_field;
mod input_popup;
mod list;
mod list_popup;
mod list_state;
mod net;
mod pointer;
mod popup;
mod saved_servers;
mod server_info;
mod server_list;
mod sound;
mod state;
mod strings;
mod table;
mod text;
mod ui;
mod utils;
mod widgets;

pub use crate::bmp::{
    glyph_painted, header, le_u16, le_u32, overwrite, pixel_offset, row_size, total_size, with_pixel,
    Bmp, Builder, Components, DATA_OFFSET,
};
pub use crate::config::{
    lemma_inverted_round_trip, BackButton, Checkbox, ConfigAction, ConfigBackend, ConfigEntry,
    ConfigEntryBuilder, ConfigItem, Inverted, Label, Value,
};
pub use crate::config_list::{follow_outcome, grab_outcome, ConfigList, ListFocus};
pub use crate::geometry::{Position, Rect, Size};
pub use crate::glyph::GlyphInfo;
pub use crate::input::{key_of, Key, KeyEvent, Modifier};
pub use crate::input_popup::{InputFocus, InputPopup};
pub use crate::input_field::{cut, edit, is_ascii_ws, is_typable, shifted, word_start, Input};
pub use crate::list::{
    first_index, is_first, lemma_first_index, lemma_list_edges, lemma_no_index, List,
};
pub use crate::list_popup::{popup_answer, ListPopup};
pub use crate::list_state::{clamp_usize, max_offset, min, sel_or_first, ListState};
pub use crate::net::NetAddr;
pub use crate::pointer::{cell_at, row_item, Pointer};
pub use crate::popup::{confirm_step, ConfirmPopup, PopupFocus};
pub use crate::saved_servers::{
    distinct_addrs, format_saved, has_addr, is_sep, is_word, lemma_favourites_round_trip,
    lemma_insert_twice,
    lemma_loaded_keeps_all, lemma_saved_round_trip, loaded, parse_protocol, parse_saved,
    protocol_of_token, protocol_to_string, protocol_token, saved_line, saved_text, saved_words, scan,
    scan_step, word_pairs, words_of, SavePlan, SavedServer, SavedServers,
};
pub use crate::server_info::{
    all_digits, decimal_u32, digits_value, empty_info, parse_u32, parsed_info, split_fields,
    with_field, with_fields, InfoModel, Protocol, ServerInfo,
};
pub use crate::server_list::{
    distinct, entry_addrs, lemma_duplicate_answer, ping_of, ServerEntry, ServerList,
};
pub use crate::sound::Sound;
pub use crate::state::State;
pub use crate::strings::{
    body_end, bytes_to_string, escape_string, from_utf16_lossy, from_utf32_lossy, has_utf16_bom,
    has_utf32_bom, has_utf8_bom, lookup, name_of, resource_header, resource_lookup, resource_ok,
    str_eq, unescape, unique_names, units16, utf32_decodes, word16, word32, ResourceError, Strings,
};
pub use crate::table::{table_navigate, table_row_at, MyTable};
pub use crate::text::{
    color_trimmed, is_scalar, lower_of, text_width, trimmed, utf16_lossy, utf8_lossy, white_space,
};
pub use crate::ui::{
    activated, activated_hidden, closed_top_first, control_effects, control_hides, control_outcome,
    got_server, heard, heard_all, hidden, hovered, pinged, resized, top_hidden, wheel_events, wheel_keys, wheel_x, wheel_y, depth_after, depth_after_all, keeps_below, key_route,
    lemma_stack_never_empty, Control, Effect, KeyDest, Menu, Route, Touch, Ui, UiFocus,
    TOUCH_THRESHOLD_MS,
};
pub use crate::utils::{
    count_lines, decimal, digit_char, piece_widths, pretty_size, pretty_size_text, round_div,
    space_pieces, unit_divisor, unit_index, unit_name, wrap_from, wrapped_lines,
};
pub use crate::widgets::{ConfirmResult, InputResult, SelectResult};
