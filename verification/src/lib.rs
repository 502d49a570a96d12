//! Control and sample-preparation core of a virtual pipe organ.
//!
//! The crate has two halves. One is a WAV normalization codec: a
//! byte-to-byte transform that rewrites a 24-bit PCM container as a
//! 16-bit one while preserving every foreign metadata chunk, and leaves
//! 16-bit sources untouched. The other is the instrument control plane:
//! an activation matrix recording which stops are enabled on which of
//! 16 virtual channels, a bounded diagnostic log, and a command bus that
//! forwards every accepted change to the audio renderer.

mod api;
mod bus;
mod console;
mod lcd;
mod logbuf;
mod matrix;
mod messages;
mod midi;
mod organ;
mod picker;
mod state;
mod text;
mod wav;
mod wav_build;
mod wav_convert;
mod wav_path;

pub use api::api_log_line;
pub use api::ApiUpdateOutcome;
pub use api::ChannelUpdateRequest;
pub use api::get_organ_info;
pub use api::get_stops;
pub use api::lists_active_channels;
pub use api::OrganInfoResponse;
pub use api::StopStatusResponse;
pub use api::update_stop_channel;
pub use bus::CommandBus;
pub use bus::FeedbackLink;
pub use console::apply_feedback;
pub use console::CONSOLE_COLUMNS;
pub use console::ConsoleKey;
pub use console::ConsoleOutcome;
pub use console::ConsoleState;
pub use console::disable_all_messages;
pub use console::enable_all_messages;
pub use console::handle_console_key;
pub use console::select_all_stops;
pub use console::select_none_stops;
pub use console::toggle_selected_stop;
pub use lcd::cycle_color;
pub use lcd::cycle_line_type;
pub use lcd::edited_display;
pub use lcd::handle_field_edit;
pub use lcd::handle_input;
pub use lcd::LcdColor;
pub use lcd::LcdConfigAction;
pub use lcd::LcdDisplayConfig;
pub use lcd::LcdKey;
pub use lcd::LcdLineType;
pub use lcd::TuiLcdState;
pub use logbuf::LOG_CAPACITY;
pub use logbuf::LogBuffer;
pub use matrix::ActivationMatrix;
pub use matrix::CHANNEL_COUNT;
pub use messages::ControlMessage;
pub use messages::FeedbackMessage;
pub use messages::StateError;
pub use midi::decode_midi_message;
pub use midi::decoded_midi;
pub use midi::format_midi_message;
pub use midi::formatted_midi;
pub use midi::handle_midi_event;
pub use midi::hex_dump;
pub use organ::Organ;
pub use organ::Stop;
pub use picker::activate_entry;
pub use picker::allowed_instrument_path;
pub use picker::compare_names;
pub use picker::entry_order;
pub use picker::is_allowed_file_name;
pub use picker::lex_lt;
pub use picker::PickerActivation;
pub use picker::PickerCursor;
pub use picker::PickerEntry;
pub use state::AppState;
pub use state::lemma_toggle_run;
pub use state::membership_after_run;
pub use state::set_edit;
pub use state::toggle_messages;
pub use text::append_byte_hex;
pub use text::append_decimal;
pub use text::byte_hex;
pub use text::decimal_digits;
pub use text::decimal_string;
pub use text::digit_char;
pub use wav::data_tag;
pub use wav::fmt_fields_at;
pub use wav::fmt_tag;
pub use wav::foreign_wire_size;
pub use wav::ForeignChunk;
pub use wav::ForeignChunkModel;
pub use wav::le16_at;
pub use wav::le32_at;
pub use wav::parse_container;
pub use wav::parsed_container;
pub use wav::ParsedWav;
pub use wav::riff_tag;
pub use wav::scan_chunks;
pub use wav::scan_start;
pub use wav::ScanModel;
pub use wav::wave_tag;
pub use wav::WavError;
pub use wav::WavFormatDescriptor;
pub use wav_build::build_output;
pub use wav_build::chunk_bytes;
pub use wav_build::foreign_chunks_bytes;
pub use wav_build::foreign_tags_wf;
pub use wav_build::le16_bytes;
pub use wav_build::le32_bytes;
pub use wav_build::lemma_foreign_bytes_len;
pub use wav_build::lemma_foreign_chunk_preserved;
pub use wav_build::output_bytes;
pub use wav_build::output_format_payload;
pub use wav_build::output_size;
pub use wav_build::padded_len;
pub use wav_convert::convert_data;
pub use wav_convert::convert_sample;
pub use wav_convert::converted_data;
pub use wav_convert::data_region;
pub use wav_convert::normalize_bytes;
pub use wav_convert::NormalizeOutcome;
pub use wav_convert::sample_bytes_16;
pub use wav_convert::sample_value_16;
pub use wav_convert::sample_value_24;
pub use wav_path::derive_target_path;
pub use wav_path::has_extension;
pub use wav_path::name_start;
pub use wav_path::normalized_target_path;
