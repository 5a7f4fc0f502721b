//! A typed model of MusicXML scores: the document model, its decoding from a
//! generic element tree and its encoding back, and the replay of a measure
//! that gives every note its position.
pub mod accidental;
pub mod articulations;
pub mod attributes;
pub mod backup;
pub mod barline;
pub mod bass;
pub mod codec;
pub mod credit;
pub mod decimal;
pub mod degree;
pub mod direction;
pub mod dynamics;
pub mod error;
pub mod forward;
pub mod frame;
pub mod group_barline;
pub mod group_symbol;
pub mod harmony;
pub mod identification;
pub mod left_right_middle;
pub mod level;
pub mod lyric;
pub mod measure;
pub mod measure_layout;
pub mod measure_numbering_value;
pub mod midi_device;
pub mod midi_instrument;
pub mod names;
pub mod node;
pub mod note;
pub mod numeral;
pub mod numeral_key;
pub mod page_layout;
pub mod page_margins;
pub mod part;
pub mod part_display;
pub mod part_group;
pub mod part_list;
pub mod primitives;
pub mod print;
pub mod printable_value;
pub mod root;
pub mod scalar;
pub mod score_instrument;
pub mod score_part;
pub mod score_partwise;
pub mod staff_layout;
pub mod start_stop_continue;
pub mod start_stop_single;
pub mod stem;
pub mod symbol_size;
pub mod system_divider;
pub mod system_layout;
pub mod text;
pub mod work;
pub mod yes_no;
