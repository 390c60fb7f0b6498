use vstd::prelude::*;
use libloading_mini::Library;
use crate::error::InitError;
use crate::loader::{find_symbol, load_library};

verus! {

/// Number of native entry points the binding resolves.
pub const SYMBOL_COUNT: usize = 222;

/// The exported names of every native entry point, in table order.
pub open spec fn entry_point_names() -> Seq<Seq<char>> {
    seq![
        "libvlc_errmsg"@,
        "libvlc_clearerr"@,
        "libvlc_new"@,
        "libvlc_release"@,
        "libvlc_retain"@,
        "libvlc_add_intf"@,
        "libvlc_set_exit_handler"@,
        "libvlc_wait"@,
        "libvlc_set_user_agent"@,
        "libvlc_set_app_id"@,
        "libvlc_get_version"@,
        "libvlc_get_compiler"@,
        "libvlc_get_changeset"@,
        "libvlc_free"@,
        "libvlc_event_attach"@,
        "libvlc_event_type_name"@,
        "libvlc_log_get_context"@,
        "libvlc_log_get_object"@,
        "libvlc_log_unset"@,
        "libvlc_log_set"@,
        "libvlc_log_set_file"@,
        "libvlc_module_description_list_release"@,
        "libvlc_audio_filter_list_get"@,
        "libvlc_video_filter_list_get"@,
        "libvlc_clock"@,
        "libvlc_media_new_location"@,
        "libvlc_media_new_path"@,
        "libvlc_media_new_fd"@,
        "libvlc_media_add_option"@,
        "libvlc_media_add_option_flag"@,
        "libvlc_media_retain"@,
        "libvlc_media_release"@,
        "libvlc_media_get_mrl"@,
        "libvlc_media_duplicate"@,
        "libvlc_media_get_meta"@,
        "libvlc_media_set_meta"@,
        "libvlc_media_save_meta"@,
        "libvlc_media_get_state"@,
        "libvlc_media_get_stats"@,
        "libvlc_media_subitems"@,
        "libvlc_media_event_manager"@,
        "libvlc_media_get_duration"@,
        "libvlc_media_parse"@,
        "libvlc_media_parse_async"@,
        "libvlc_media_is_parsed"@,
        "libvlc_media_set_user_data"@,
        "libvlc_media_get_user_data"@,
        "libvlc_media_tracks_get"@,
        "libvlc_media_tracks_release"@,
        "libvlc_media_player_new"@,
        "libvlc_media_player_new_from_media"@,
        "libvlc_media_player_release"@,
        "libvlc_media_player_retain"@,
        "libvlc_media_player_set_media"@,
        "libvlc_media_player_get_media"@,
        "libvlc_media_player_event_manager"@,
        "libvlc_media_player_is_playing"@,
        "libvlc_media_player_play"@,
        "libvlc_media_player_set_pause"@,
        "libvlc_media_player_pause"@,
        "libvlc_media_player_stop"@,
        "libvlc_video_set_callbacks"@,
        "libvlc_video_set_format"@,
        "libvlc_video_set_format_callbacks"@,
        "libvlc_media_player_set_nsobject"@,
        "libvlc_media_player_get_nsobject"@,
        "libvlc_media_player_set_xwindow"@,
        "libvlc_media_player_get_xwindow"@,
        "libvlc_media_player_set_hwnd"@,
        "libvlc_media_player_get_hwnd"@,
        "libvlc_audio_set_callbacks"@,
        "libvlc_audio_set_volume_callback"@,
        "libvlc_audio_set_format_callbacks"@,
        "libvlc_audio_set_format"@,
        "libvlc_media_player_get_length"@,
        "libvlc_media_player_get_time"@,
        "libvlc_media_player_set_time"@,
        "libvlc_media_player_get_position"@,
        "libvlc_media_player_set_position"@,
        "libvlc_media_player_set_chapter"@,
        "libvlc_media_player_get_chapter"@,
        "libvlc_media_player_get_chapter_count"@,
        "libvlc_media_player_will_play"@,
        "libvlc_media_player_set_title"@,
        "libvlc_media_player_get_chapter_count_for_title"@,
        "libvlc_media_player_get_title"@,
        "libvlc_media_player_get_title_count"@,
        "libvlc_media_player_previous_chapter"@,
        "libvlc_media_player_next_chapter"@,
        "libvlc_media_player_get_rate"@,
        "libvlc_media_player_set_rate"@,
        "libvlc_media_player_get_state"@,
        "libvlc_media_player_get_fps"@,
        "libvlc_media_player_has_vout"@,
        "libvlc_media_player_is_seekable"@,
        "libvlc_media_player_can_pause"@,
        "libvlc_media_player_program_scrambled"@,
        "libvlc_media_player_next_frame"@,
        "libvlc_media_player_navigate"@,
        "libvlc_media_player_set_video_title_display"@,
        "libvlc_track_description_list_release"@,
        "libvlc_toggle_fullscreen"@,
        "libvlc_set_fullscreen"@,
        "libvlc_get_fullscreen"@,
        "libvlc_video_set_key_input"@,
        "libvlc_video_set_mouse_input"@,
        "libvlc_video_get_size"@,
        "libvlc_video_get_cursor"@,
        "libvlc_video_get_scale"@,
        "libvlc_video_set_scale"@,
        "libvlc_video_get_aspect_ratio"@,
        "libvlc_video_set_aspect_ratio"@,
        "libvlc_video_get_spu"@,
        "libvlc_video_get_spu_count"@,
        "libvlc_video_get_spu_description"@,
        "libvlc_video_set_spu"@,
        "libvlc_video_set_subtitle_file"@,
        "libvlc_video_get_spu_delay"@,
        "libvlc_video_set_spu_delay"@,
        "libvlc_video_get_title_description"@,
        "libvlc_video_get_chapter_description"@,
        "libvlc_video_get_crop_geometry"@,
        "libvlc_video_set_crop_geometry"@,
        "libvlc_video_get_teletext"@,
        "libvlc_video_set_teletext"@,
        "libvlc_toggle_teletext"@,
        "libvlc_video_get_track_count"@,
        "libvlc_video_get_track_description"@,
        "libvlc_video_get_track"@,
        "libvlc_video_set_track"@,
        "libvlc_video_take_snapshot"@,
        "libvlc_video_set_deinterlace"@,
        "libvlc_video_get_marquee_int"@,
        "libvlc_video_get_marquee_string"@,
        "libvlc_video_set_marquee_int"@,
        "libvlc_video_set_marquee_string"@,
        "libvlc_video_get_logo_int"@,
        "libvlc_video_set_logo_int"@,
        "libvlc_video_set_logo_string"@,
        "libvlc_video_get_adjust_int"@,
        "libvlc_video_set_adjust_int"@,
        "libvlc_video_get_adjust_float"@,
        "libvlc_video_set_adjust_float"@,
        "libvlc_audio_output_list_get"@,
        "libvlc_audio_output_list_release"@,
        "libvlc_audio_output_set"@,
        "libvlc_audio_output_device_enum"@,
        "libvlc_audio_output_device_list_get"@,
        "libvlc_audio_output_device_list_release"@,
        "libvlc_audio_output_device_set"@,
        "libvlc_audio_toggle_mute"@,
        "libvlc_audio_get_mute"@,
        "libvlc_audio_set_mute"@,
        "libvlc_audio_get_volume"@,
        "libvlc_audio_set_volume"@,
        "libvlc_audio_get_track_count"@,
        "libvlc_audio_get_track_description"@,
        "libvlc_audio_get_track"@,
        "libvlc_audio_set_track"@,
        "libvlc_audio_get_channel"@,
        "libvlc_audio_set_channel"@,
        "libvlc_audio_get_delay"@,
        "libvlc_audio_set_delay"@,
        "libvlc_audio_equalizer_get_preset_count"@,
        "libvlc_audio_equalizer_get_preset_name"@,
        "libvlc_audio_equalizer_get_band_count"@,
        "libvlc_audio_equalizer_get_band_frequency"@,
        "libvlc_audio_equalizer_new"@,
        "libvlc_audio_equalizer_new_from_preset"@,
        "libvlc_audio_equalizer_release"@,
        "libvlc_audio_equalizer_set_preamp"@,
        "libvlc_audio_equalizer_get_preamp"@,
        "libvlc_audio_equalizer_set_amp_at_index"@,
        "libvlc_audio_equalizer_get_amp_at_index"@,
        "libvlc_media_player_set_equalizer"@,
        "libvlc_media_list_new"@,
        "libvlc_media_list_release"@,
        "libvlc_media_list_retain"@,
        "libvlc_media_list_set_media"@,
        "libvlc_media_list_media"@,
        "libvlc_media_list_add_media"@,
        "libvlc_media_list_insert_media"@,
        "libvlc_media_list_remove_index"@,
        "libvlc_media_list_count"@,
        "libvlc_media_list_item_at_index"@,
        "libvlc_media_list_index_of_item"@,
        "libvlc_media_list_is_readonly"@,
        "libvlc_media_list_lock"@,
        "libvlc_media_list_unlock"@,
        "libvlc_media_list_event_manager"@,
        "libvlc_media_library_new"@,
        "libvlc_media_library_release"@,
        "libvlc_media_library_retain"@,
        "libvlc_media_library_load"@,
        "libvlc_media_library_media_list"@,
        "libvlc_media_discoverer_new_from_name"@,
        "libvlc_media_discoverer_release"@,
        "libvlc_media_discoverer_localized_name"@,
        "libvlc_media_discoverer_media_list"@,
        "libvlc_media_discoverer_event_manager"@,
        "libvlc_media_discoverer_is_running"@,
        "libvlc_vlm_release"@,
        "libvlc_vlm_add_broadcast"@,
        "libvlc_vlm_add_vod"@,
        "libvlc_vlm_del_media"@,
        "libvlc_vlm_set_enabled"@,
        "libvlc_vlm_set_output"@,
        "libvlc_vlm_set_input"@,
        "libvlc_vlm_add_input"@,
        "libvlc_vlm_set_loop"@,
        "libvlc_vlm_set_mux"@,
        "libvlc_vlm_change_media"@,
        "libvlc_vlm_play_media"@,
        "libvlc_vlm_stop_media"@,
        "libvlc_vlm_pause_media"@,
        "libvlc_vlm_seek_media"@,
        "libvlc_vlm_show_media"@,
        "libvlc_vlm_get_media_instance_position"@,
        "libvlc_vlm_get_media_instance_time"@,
        "libvlc_vlm_get_media_instance_length"@,
        "libvlc_vlm_get_media_instance_rate"@,
        "libvlc_vlm_get_event_manager"@,
    ]
}

/// The names to look up in the loaded library, in table order.
#[verifier::rlimit(50)]
pub fn symbol_names() -> (r: Vec<&'static str>)
    ensures
        r@.len() == SYMBOL_COUNT,
        r@.map_values(|s: &'static str| s@) == entry_point_names(),
{
    let r = vec![
        "libvlc_errmsg",
        "libvlc_clearerr",
        "libvlc_new",
        "libvlc_release",
        "libvlc_retain",
        "libvlc_add_intf",
        "libvlc_set_exit_handler",
        "libvlc_wait",
        "libvlc_set_user_agent",
        "libvlc_set_app_id",
        "libvlc_get_version",
        "libvlc_get_compiler",
        "libvlc_get_changeset",
        "libvlc_free",
        "libvlc_event_attach",
        "libvlc_event_type_name",
        "libvlc_log_get_context",
        "libvlc_log_get_object",
        "libvlc_log_unset",
        "libvlc_log_set",
        "libvlc_log_set_file",
        "libvlc_module_description_list_release",
        "libvlc_audio_filter_list_get",
        "libvlc_video_filter_list_get",
        "libvlc_clock",
        "libvlc_media_new_location",
        "libvlc_media_new_path",
        "libvlc_media_new_fd",
        "libvlc_media_add_option",
        "libvlc_media_add_option_flag",
        "libvlc_media_retain",
        "libvlc_media_release",
        "libvlc_media_get_mrl",
        "libvlc_media_duplicate",
        "libvlc_media_get_meta",
        "libvlc_media_set_meta",
        "libvlc_media_save_meta",
        "libvlc_media_get_state",
        "libvlc_media_get_stats",
        "libvlc_media_subitems",
        "libvlc_media_event_manager",
        "libvlc_media_get_duration",
        "libvlc_media_parse",
        "libvlc_media_parse_async",
        "libvlc_media_is_parsed",
        "libvlc_media_set_user_data",
        "libvlc_media_get_user_data",
        "libvlc_media_tracks_get",
        "libvlc_media_tracks_release",
        "libvlc_media_player_new",
        "libvlc_media_player_new_from_media",
        "libvlc_media_player_release",
        "libvlc_media_player_retain",
        "libvlc_media_player_set_media",
        "libvlc_media_player_get_media",
        "libvlc_media_player_event_manager",
        "libvlc_media_player_is_playing",
        "libvlc_media_player_play",
        "libvlc_media_player_set_pause",
        "libvlc_media_player_pause",
        "libvlc_media_player_stop",
        "libvlc_video_set_callbacks",
        "libvlc_video_set_format",
        "libvlc_video_set_format_callbacks",
        "libvlc_media_player_set_nsobject",
        "libvlc_media_player_get_nsobject",
        "libvlc_media_player_set_xwindow",
        "libvlc_media_player_get_xwindow",
        "libvlc_media_player_set_hwnd",
        "libvlc_media_player_get_hwnd",
        "libvlc_audio_set_callbacks",
        "libvlc_audio_set_volume_callback",
        "libvlc_audio_set_format_callbacks",
        "libvlc_audio_set_format",
        "libvlc_media_player_get_length",
        "libvlc_media_player_get_time",
        "libvlc_media_player_set_time",
        "libvlc_media_player_get_position",
        "libvlc_media_player_set_position",
        "libvlc_media_player_set_chapter",
        "libvlc_media_player_get_chapter",
        "libvlc_media_player_get_chapter_count",
        "libvlc_media_player_will_play",
        "libvlc_media_player_set_title",
        "libvlc_media_player_get_chapter_count_for_title",
        "libvlc_media_player_get_title",
        "libvlc_media_player_get_title_count",
        "libvlc_media_player_previous_chapter",
        "libvlc_media_player_next_chapter",
        "libvlc_media_player_get_rate",
        "libvlc_media_player_set_rate",
        "libvlc_media_player_get_state",
        "libvlc_media_player_get_fps",
        "libvlc_media_player_has_vout",
        "libvlc_media_player_is_seekable",
        "libvlc_media_player_can_pause",
        "libvlc_media_player_program_scrambled",
        "libvlc_media_player_next_frame",
        "libvlc_media_player_navigate",
        "libvlc_media_player_set_video_title_display",
        "libvlc_track_description_list_release",
        "libvlc_toggle_fullscreen",
        "libvlc_set_fullscreen",
        "libvlc_get_fullscreen",
        "libvlc_video_set_key_input",
        "libvlc_video_set_mouse_input",
        "libvlc_video_get_size",
        "libvlc_video_get_cursor",
        "libvlc_video_get_scale",
        "libvlc_video_set_scale",
        "libvlc_video_get_aspect_ratio",
        "libvlc_video_set_aspect_ratio",
        "libvlc_video_get_spu",
        "libvlc_video_get_spu_count",
        "libvlc_video_get_spu_description",
        "libvlc_video_set_spu",
        "libvlc_video_set_subtitle_file",
        "libvlc_video_get_spu_delay",
        "libvlc_video_set_spu_delay",
        "libvlc_video_get_title_description",
        "libvlc_video_get_chapter_description",
        "libvlc_video_get_crop_geometry",
        "libvlc_video_set_crop_geometry",
        "libvlc_video_get_teletext",
        "libvlc_video_set_teletext",
        "libvlc_toggle_teletext",
        "libvlc_video_get_track_count",
        "libvlc_video_get_track_description",
        "libvlc_video_get_track",
        "libvlc_video_set_track",
        "libvlc_video_take_snapshot",
        "libvlc_video_set_deinterlace",
        "libvlc_video_get_marquee_int",
        "libvlc_video_get_marquee_string",
        "libvlc_video_set_marquee_int",
        "libvlc_video_set_marquee_string",
        "libvlc_video_get_logo_int",
        "libvlc_video_set_logo_int",
        "libvlc_video_set_logo_string",
        "libvlc_video_get_adjust_int",
        "libvlc_video_set_adjust_int",
        "libvlc_video_get_adjust_float",
        "libvlc_video_set_adjust_float",
        "libvlc_audio_output_list_get",
        "libvlc_audio_output_list_release",
        "libvlc_audio_output_set",
        "libvlc_audio_output_device_enum",
        "libvlc_audio_output_device_list_get",
        "libvlc_audio_output_device_list_release",
        "libvlc_audio_output_device_set",
        "libvlc_audio_toggle_mute",
        "libvlc_audio_get_mute",
        "libvlc_audio_set_mute",
        "libvlc_audio_get_volume",
        "libvlc_audio_set_volume",
        "libvlc_audio_get_track_count",
        "libvlc_audio_get_track_description",
        "libvlc_audio_get_track",
        "libvlc_audio_set_track",
        "libvlc_audio_get_channel",
        "libvlc_audio_set_channel",
        "libvlc_audio_get_delay",
        "libvlc_audio_set_delay",
        "libvlc_audio_equalizer_get_preset_count",
        "libvlc_audio_equalizer_get_preset_name",
        "libvlc_audio_equalizer_get_band_count",
        "libvlc_audio_equalizer_get_band_frequency",
        "libvlc_audio_equalizer_new",
        "libvlc_audio_equalizer_new_from_preset",
        "libvlc_audio_equalizer_release",
        "libvlc_audio_equalizer_set_preamp",
        "libvlc_audio_equalizer_get_preamp",
        "libvlc_audio_equalizer_set_amp_at_index",
        "libvlc_audio_equalizer_get_amp_at_index",
        "libvlc_media_player_set_equalizer",
        "libvlc_media_list_new",
        "libvlc_media_list_release",
        "libvlc_media_list_retain",
        "libvlc_media_list_set_media",
        "libvlc_media_list_media",
        "libvlc_media_list_add_media",
        "libvlc_media_list_insert_media",
        "libvlc_media_list_remove_index",
        "libvlc_media_list_count",
        "libvlc_media_list_item_at_index",
        "libvlc_media_list_index_of_item",
        "libvlc_media_list_is_readonly",
        "libvlc_media_list_lock",
        "libvlc_media_list_unlock",
        "libvlc_media_list_event_manager",
        "libvlc_media_library_new",
        "libvlc_media_library_release",
        "libvlc_media_library_retain",
        "libvlc_media_library_load",
        "libvlc_media_library_media_list",
        "libvlc_media_discoverer_new_from_name",
        "libvlc_media_discoverer_release",
        "libvlc_media_discoverer_localized_name",
        "libvlc_media_discoverer_media_list",
        "libvlc_media_discoverer_event_manager",
        "libvlc_media_discoverer_is_running",
        "libvlc_vlm_release",
        "libvlc_vlm_add_broadcast",
        "libvlc_vlm_add_vod",
        "libvlc_vlm_del_media",
        "libvlc_vlm_set_enabled",
        "libvlc_vlm_set_output",
        "libvlc_vlm_set_input",
        "libvlc_vlm_add_input",
        "libvlc_vlm_set_loop",
        "libvlc_vlm_set_mux",
        "libvlc_vlm_change_media",
        "libvlc_vlm_play_media",
        "libvlc_vlm_stop_media",
        "libvlc_vlm_pause_media",
        "libvlc_vlm_seek_media",
        "libvlc_vlm_show_media",
        "libvlc_vlm_get_media_instance_position",
        "libvlc_vlm_get_media_instance_time",
        "libvlc_vlm_get_media_instance_length",
        "libvlc_vlm_get_media_instance_rate",
        "libvlc_vlm_get_event_manager",
    ];
    assert(r@.map_values(|s: &'static str| s@) =~= entry_point_names());
    r
}

/// A lookup outcome that counts as resolved: the export exists at a non-null address.
pub open spec fn is_resolved(o: Option<usize>) -> bool {
    o matches Some(a) && a != 0
}

/// Every lookup outcome is resolved.
pub open spec fn all_resolved(found: Seq<Option<usize>>) -> bool {
    forall|i: int| 0 <= i < found.len() ==> #[trigger] is_resolved(found[i])
}

/// The position of the first unresolved outcome, when there is one.
pub open spec fn first_unresolved(found: Seq<Option<usize>>, k: int) -> bool {
    &&& 0 <= k < found.len()
    &&& !is_resolved(found[k])
    &&& forall|j: int| 0 <= j < k ==> #[trigger] is_resolved(found[j])
}

/// The addresses carried by a sequence of outcomes.
pub open spec fn addresses_of(found: Seq<Option<usize>>) -> Seq<usize> {
    found.map_values(|o: Option<usize>| o->0)
}

/// One non-null address for each entry point.
pub open spec fn all_present(addresses: Seq<usize>) -> bool {
    &&& addresses.len() == SYMBOL_COUNT
    &&& forall|i: int| 0 <= i < SYMBOL_COUNT ==> #[trigger] addresses[i] != 0
}

/// Turns the outcomes of looking up each name into the addresses, all or
/// nothing: every outcome resolved gives all addresses in order, otherwise the
/// error names the first unresolved position.
pub fn collect_addresses(found: &Vec<Option<usize>>) -> (r: Result<Vec<usize>, usize>)
    ensures
        r is Ok <==> all_resolved(found@),
        r matches Ok(v) ==> v@ == addresses_of(found@),
        r matches Err(k) ==> first_unresolved(found@, k as int),
{
    let mut out: Vec<usize> = Vec::new();
    let mut i: usize = 0;
    while i < found.len()
        invariant
            i <= found@.len(),
            out@ == addresses_of(found@.subrange(0, i as int)),
            forall|j: int| 0 <= j < i ==> #[trigger] is_resolved(found@[j]),
        decreases found@.len() - i,
    {
        match found[i] {
            Some(a) => {
                if a == 0 {
                    assert(!is_resolved(found@[i as int]));
                    return Err(i);
                }
                out.push(a);
                assert(found@.subrange(0, i + 1) =~= found@.subrange(0, i as int).push(found@[i as int]));
                assert(addresses_of(found@.subrange(0, i + 1)) =~= addresses_of(found@.subrange(0, i as int)).push(a));
            }
            None => {
                assert(!is_resolved(found@[i as int]));
                return Err(i);
            }
        }
        i = i + 1;
    }
    assert(found@.subrange(0, i as int) =~= found@);
    Ok(out)
}

/// Looks up every name in `library` and collects the addresses, all or nothing.
pub fn resolve_symbols(library: &Library, names: &Vec<&str>) -> (r: Result<Vec<usize>, usize>)
    ensures
        r matches Ok(v) ==> v@.len() == names@.len() && forall|i: int| 0 <= i < v@.len() ==> #[trigger] v@[i] != 0,
        r matches Err(k) ==> k < names@.len(),
{
    let mut found: Vec<Option<usize>> = Vec::new();
    let mut i: usize = 0;
    while i < names.len()
        invariant
            i <= names@.len(),
            found@.len() == i,
        decreases names@.len() - i,
    {
        found.push(find_symbol(library, names[i]));
        i = i + 1;
    }
    let r = collect_addresses(&found);
    if let Ok(v) = &r {
        assert forall|i: int| 0 <= i < v@.len() implies #[trigger] v@[i] != 0 by {
            assert(is_resolved(found@[i]));
        }
    }
    r
}

/// The resolved addresses of every native entry point, kept together with the
/// library they point into so that the library stays loaded while they are used.
pub struct FunctionTable {
    #[allow(dead_code)]
    library: Library,
    addresses: Vec<usize>,
}

impl FunctionTable {
    /// The addresses, in the order of `entry_point_names`.
    pub closed spec fn view(&self) -> Seq<usize> {
        self.addresses@
    }

    /// A table is never partial: one non-null address per entry point.
    #[verifier::type_invariant]
    spec fn complete(self) -> bool {
        all_present(self.addresses@)
    }

    /// Resolves every entry point in `library`. No table is built unless all of
    /// them resolve; otherwise the error names the first missing one.
    pub fn resolve(library: Library) -> (r: Result<FunctionTable, InitError>)
        ensures
            r matches Ok(t) ==> all_present(t@),
            r matches Err(e) ==> e matches InitError::MissingSymbol { index } && index < SYMBOL_COUNT,
    {
        let names = symbol_names();
        match resolve_symbols(&library, &names) {
            Ok(addresses) => Ok(FunctionTable { library, addresses }),
            Err(index) => Err(InitError::MissingSymbol { index }),
        }
    }

    /// The address of the entry point at `index` of `entry_point_names`.
    pub fn address(&self, index: usize) -> (r: usize)
        requires
            index < SYMBOL_COUNT,
        ensures
            r == self@[index as int],
            r != 0,
    {
        proof {
            use_type_invariant(self);
        }
        self.addresses[index]
    }
}

/// Opens the primary library at `path` and resolves its entry points. A file
/// the loader rejects fails with `LoadFailed`, never with a missing symbol.
pub fn load_function_table(path: &str) -> (r: Result<FunctionTable, InitError>)
    ensures
        r matches Ok(t) ==> all_present(t@),
        r matches Err(e) ==> (e == InitError::LoadFailed || (e matches InitError::MissingSymbol { index } && index < SYMBOL_COUNT)),
{
    let library = match load_library(path) {
        Ok(library) => library,
        Err(e) => {
            return Err(e);
        }
    };
    FunctionTable::resolve(library)
}

} // verus!
