use vstd::prelude::*;

verus! {

/// What an opaque handle type wraps: it has no public constructor, so no value
/// of a handle type is ever made on the Rust side.
#[allow(dead_code)]
pub struct NativeObject {
    private: (),
}

/// Opaque handle of a runtime instance: only ever used behind a pointer that the
/// native library owns, and never built in Rust.
#[allow(non_camel_case_types)]
pub enum libvlc_instance_t {
    Native(NativeObject),
}

/// Opaque handle of an iterator over log messages: only ever used behind a pointer that the
/// native library owns, and never built in Rust.
#[allow(non_camel_case_types)]
pub enum libvlc_log_iterator_t {
    Native(NativeObject),
}

/// Opaque handle of the event manager of a media, player, list or instance: only ever used behind a pointer that the
/// native library owns, and never built in Rust.
#[allow(non_camel_case_types)]
pub enum libvlc_event_manager_t {
    Native(NativeObject),
}

/// Opaque handle of the context of one log message: only ever used behind a pointer that the
/// native library owns, and never built in Rust.
#[allow(non_camel_case_types)]
pub enum libvlc_log_t {
    Native(NativeObject),
}

/// Opaque handle of the core's own log context: only ever used behind a pointer that the
/// native library owns, and never built in Rust.
#[allow(non_camel_case_types)]
pub enum vlc_log_t {
    Native(NativeObject),
}

/// Opaque handle of a media item: only ever used behind a pointer that the
/// native library owns, and never built in Rust.
#[allow(non_camel_case_types)]
pub enum libvlc_media_t {
    Native(NativeObject),
}

/// Opaque handle of a media player: only ever used behind a pointer that the
/// native library owns, and never built in Rust.
#[allow(non_camel_case_types)]
pub enum libvlc_media_player_t {
    Native(NativeObject),
}

/// Opaque handle of an audio equalizer: only ever used behind a pointer that the
/// native library owns, and never built in Rust.
#[allow(non_camel_case_types)]
pub enum libvlc_equalizer_t {
    Native(NativeObject),
}

/// Opaque handle of a list of media items: only ever used behind a pointer that the
/// native library owns, and never built in Rust.
#[allow(non_camel_case_types)]
pub enum libvlc_media_list_t {
    Native(NativeObject),
}

/// Opaque handle of a media library: only ever used behind a pointer that the
/// native library owns, and never built in Rust.
#[allow(non_camel_case_types)]
pub enum libvlc_media_library_t {
    Native(NativeObject),
}

/// Opaque handle of a media discoverer: only ever used behind a pointer that the
/// native library owns, and never built in Rust.
#[allow(non_camel_case_types)]
pub enum libvlc_media_discoverer_t {
    Native(NativeObject),
}

/// Options of the video marquee filter.
#[allow(non_camel_case_types)]
#[derive(Clone, Copy, Debug, PartialEq, Eq, Structural)]
pub enum libvlc_video_marquee_option_t {
    libvlc_marquee_Enable,
    libvlc_marquee_Text,
    libvlc_marquee_Color,
    libvlc_marquee_Opacity,
    libvlc_marquee_Position,
    libvlc_marquee_Refresh,
    libvlc_marquee_Size,
    libvlc_marquee_Timeout,
    libvlc_marquee_X,
    libvlc_marquee_Y,
}

impl libvlc_video_marquee_option_t {
    /// The value the native header gives this option.
    pub open spec fn native_code(self) -> int {
        match self {
            libvlc_video_marquee_option_t::libvlc_marquee_Enable => 0,
            libvlc_video_marquee_option_t::libvlc_marquee_Text => 1,
            libvlc_video_marquee_option_t::libvlc_marquee_Color => 2,
            libvlc_video_marquee_option_t::libvlc_marquee_Opacity => 3,
            libvlc_video_marquee_option_t::libvlc_marquee_Position => 4,
            libvlc_video_marquee_option_t::libvlc_marquee_Refresh => 5,
            libvlc_video_marquee_option_t::libvlc_marquee_Size => 6,
            libvlc_video_marquee_option_t::libvlc_marquee_Timeout => 7,
            libvlc_video_marquee_option_t::libvlc_marquee_X => 8,
            libvlc_video_marquee_option_t::libvlc_marquee_Y => 9,
        }
    }

    /// The integer passed to the native library for this option.
    pub fn to_native(self) -> (r: i32)
        ensures
            r as int == self.native_code(),
    {
        match self {
            libvlc_video_marquee_option_t::libvlc_marquee_Enable => 0,
            libvlc_video_marquee_option_t::libvlc_marquee_Text => 1,
            libvlc_video_marquee_option_t::libvlc_marquee_Color => 2,
            libvlc_video_marquee_option_t::libvlc_marquee_Opacity => 3,
            libvlc_video_marquee_option_t::libvlc_marquee_Position => 4,
            libvlc_video_marquee_option_t::libvlc_marquee_Refresh => 5,
            libvlc_video_marquee_option_t::libvlc_marquee_Size => 6,
            libvlc_video_marquee_option_t::libvlc_marquee_Timeout => 7,
            libvlc_video_marquee_option_t::libvlc_marquee_X => 8,
            libvlc_video_marquee_option_t::libvlc_marquee_Y => 9,
        }
    }

    /// The option with native value `code`, if there is one.
    pub fn from_native(code: i32) -> (r: Option<Self>)
        ensures
            r matches Some(v) ==> v.native_code() == code as int,
            r is None ==> forall|v: Self| v.native_code() != code as int,
    {
        match code {
            0 => Some(libvlc_video_marquee_option_t::libvlc_marquee_Enable),
            1 => Some(libvlc_video_marquee_option_t::libvlc_marquee_Text),
            2 => Some(libvlc_video_marquee_option_t::libvlc_marquee_Color),
            3 => Some(libvlc_video_marquee_option_t::libvlc_marquee_Opacity),
            4 => Some(libvlc_video_marquee_option_t::libvlc_marquee_Position),
            5 => Some(libvlc_video_marquee_option_t::libvlc_marquee_Refresh),
            6 => Some(libvlc_video_marquee_option_t::libvlc_marquee_Size),
            7 => Some(libvlc_video_marquee_option_t::libvlc_marquee_Timeout),
            8 => Some(libvlc_video_marquee_option_t::libvlc_marquee_X),
            9 => Some(libvlc_video_marquee_option_t::libvlc_marquee_Y),
            _ => None,
        }
    }
}

/// Directions of menu navigation.
#[allow(non_camel_case_types)]
#[derive(Clone, Copy, Debug, PartialEq, Eq, Structural)]
pub enum libvlc_navigate_mode_t {
    libvlc_navigate_activate,
    libvlc_navigate_up,
    libvlc_navigate_down,
    libvlc_navigate_left,
    libvlc_navigate_right,
}

impl libvlc_navigate_mode_t {
    /// The value the native header gives this option.
    pub open spec fn native_code(self) -> int {
        match self {
            libvlc_navigate_mode_t::libvlc_navigate_activate => 0,
            libvlc_navigate_mode_t::libvlc_navigate_up => 1,
            libvlc_navigate_mode_t::libvlc_navigate_down => 2,
            libvlc_navigate_mode_t::libvlc_navigate_left => 3,
            libvlc_navigate_mode_t::libvlc_navigate_right => 4,
        }
    }

    /// The integer passed to the native library for this option.
    pub fn to_native(self) -> (r: i32)
        ensures
            r as int == self.native_code(),
    {
        match self {
            libvlc_navigate_mode_t::libvlc_navigate_activate => 0,
            libvlc_navigate_mode_t::libvlc_navigate_up => 1,
            libvlc_navigate_mode_t::libvlc_navigate_down => 2,
            libvlc_navigate_mode_t::libvlc_navigate_left => 3,
            libvlc_navigate_mode_t::libvlc_navigate_right => 4,
        }
    }

    /// The option with native value `code`, if there is one.
    pub fn from_native(code: i32) -> (r: Option<Self>)
        ensures
            r matches Some(v) ==> v.native_code() == code as int,
            r is None ==> forall|v: Self| v.native_code() != code as int,
    {
        match code {
            0 => Some(libvlc_navigate_mode_t::libvlc_navigate_activate),
            1 => Some(libvlc_navigate_mode_t::libvlc_navigate_up),
            2 => Some(libvlc_navigate_mode_t::libvlc_navigate_down),
            3 => Some(libvlc_navigate_mode_t::libvlc_navigate_left),
            4 => Some(libvlc_navigate_mode_t::libvlc_navigate_right),
            _ => None,
        }
    }
}

/// Options of the video logo filter.
#[allow(non_camel_case_types)]
#[derive(Clone, Copy, Debug, PartialEq, Eq, Structural)]
pub enum libvlc_video_logo_option_t {
    libvlc_logo_enable,
    libvlc_logo_file,
    libvlc_logo_x,
    libvlc_logo_y,
    libvlc_logo_delay,
    libvlc_logo_repeat,
    libvlc_logo_opacity,
    libvlc_logo_position,
}

impl libvlc_video_logo_option_t {
    /// The value the native header gives this option.
    pub open spec fn native_code(self) -> int {
        match self {
            libvlc_video_logo_option_t::libvlc_logo_enable => 0,
            libvlc_video_logo_option_t::libvlc_logo_file => 1,
            libvlc_video_logo_option_t::libvlc_logo_x => 2,
            libvlc_video_logo_option_t::libvlc_logo_y => 3,
            libvlc_video_logo_option_t::libvlc_logo_delay => 4,
            libvlc_video_logo_option_t::libvlc_logo_repeat => 5,
            libvlc_video_logo_option_t::libvlc_logo_opacity => 6,
            libvlc_video_logo_option_t::libvlc_logo_position => 7,
        }
    }

    /// The integer passed to the native library for this option.
    pub fn to_native(self) -> (r: i32)
        ensures
            r as int == self.native_code(),
    {
        match self {
            libvlc_video_logo_option_t::libvlc_logo_enable => 0,
            libvlc_video_logo_option_t::libvlc_logo_file => 1,
            libvlc_video_logo_option_t::libvlc_logo_x => 2,
            libvlc_video_logo_option_t::libvlc_logo_y => 3,
            libvlc_video_logo_option_t::libvlc_logo_delay => 4,
            libvlc_video_logo_option_t::libvlc_logo_repeat => 5,
            libvlc_video_logo_option_t::libvlc_logo_opacity => 6,
            libvlc_video_logo_option_t::libvlc_logo_position => 7,
        }
    }

    /// The option with native value `code`, if there is one.
    pub fn from_native(code: i32) -> (r: Option<Self>)
        ensures
            r matches Some(v) ==> v.native_code() == code as int,
            r is None ==> forall|v: Self| v.native_code() != code as int,
    {
        match code {
            0 => Some(libvlc_video_logo_option_t::libvlc_logo_enable),
            1 => Some(libvlc_video_logo_option_t::libvlc_logo_file),
            2 => Some(libvlc_video_logo_option_t::libvlc_logo_x),
            3 => Some(libvlc_video_logo_option_t::libvlc_logo_y),
            4 => Some(libvlc_video_logo_option_t::libvlc_logo_delay),
            5 => Some(libvlc_video_logo_option_t::libvlc_logo_repeat),
            6 => Some(libvlc_video_logo_option_t::libvlc_logo_opacity),
            7 => Some(libvlc_video_logo_option_t::libvlc_logo_position),
            _ => None,
        }
    }
}

/// Speaker layouts of an audio output device.
#[allow(non_camel_case_types)]
#[derive(Clone, Copy, Debug, PartialEq, Eq, Structural)]
pub enum libvlc_audio_output_device_types_t {
    libvlc_AudioOutputDevice_Error,
    libvlc_AudioOutputDevice_Mono,
    libvlc_AudioOutputDevice_Stereo,
    libvlc_AudioOutputDevice_2F2R,
    libvlc_AudioOutputDevice_3F2R,
    libvlc_AudioOutputDevice_5_1,
    libvlc_AudioOutputDevice_6_1,
    libvlc_AudioOutputDevice_7_1,
    libvlc_AudioOutputDevice_SPDIF,
}

impl libvlc_audio_output_device_types_t {
    /// The value the native header gives this option.
    pub open spec fn native_code(self) -> int {
        match self {
            libvlc_audio_output_device_types_t::libvlc_AudioOutputDevice_Error => -1,
            libvlc_audio_output_device_types_t::libvlc_AudioOutputDevice_Mono => 1,
            libvlc_audio_output_device_types_t::libvlc_AudioOutputDevice_Stereo => 2,
            libvlc_audio_output_device_types_t::libvlc_AudioOutputDevice_2F2R => 4,
            libvlc_audio_output_device_types_t::libvlc_AudioOutputDevice_3F2R => 5,
            libvlc_audio_output_device_types_t::libvlc_AudioOutputDevice_5_1 => 6,
            libvlc_audio_output_device_types_t::libvlc_AudioOutputDevice_6_1 => 7,
            libvlc_audio_output_device_types_t::libvlc_AudioOutputDevice_7_1 => 8,
            libvlc_audio_output_device_types_t::libvlc_AudioOutputDevice_SPDIF => 10,
        }
    }

    /// The integer passed to the native library for this option.
    pub fn to_native(self) -> (r: i32)
        ensures
            r as int == self.native_code(),
    {
        match self {
            libvlc_audio_output_device_types_t::libvlc_AudioOutputDevice_Error => -1,
            libvlc_audio_output_device_types_t::libvlc_AudioOutputDevice_Mono => 1,
            libvlc_audio_output_device_types_t::libvlc_AudioOutputDevice_Stereo => 2,
            libvlc_audio_output_device_types_t::libvlc_AudioOutputDevice_2F2R => 4,
            libvlc_audio_output_device_types_t::libvlc_AudioOutputDevice_3F2R => 5,
            libvlc_audio_output_device_types_t::libvlc_AudioOutputDevice_5_1 => 6,
            libvlc_audio_output_device_types_t::libvlc_AudioOutputDevice_6_1 => 7,
            libvlc_audio_output_device_types_t::libvlc_AudioOutputDevice_7_1 => 8,
            libvlc_audio_output_device_types_t::libvlc_AudioOutputDevice_SPDIF => 10,
        }
    }

    /// The option with native value `code`, if there is one.
    pub fn from_native(code: i32) -> (r: Option<Self>)
        ensures
            r matches Some(v) ==> v.native_code() == code as int,
            r is None ==> forall|v: Self| v.native_code() != code as int,
    {
        match code {
            -1 => Some(libvlc_audio_output_device_types_t::libvlc_AudioOutputDevice_Error),
            1 => Some(libvlc_audio_output_device_types_t::libvlc_AudioOutputDevice_Mono),
            2 => Some(libvlc_audio_output_device_types_t::libvlc_AudioOutputDevice_Stereo),
            4 => Some(libvlc_audio_output_device_types_t::libvlc_AudioOutputDevice_2F2R),
            5 => Some(libvlc_audio_output_device_types_t::libvlc_AudioOutputDevice_3F2R),
            6 => Some(libvlc_audio_output_device_types_t::libvlc_AudioOutputDevice_5_1),
            7 => Some(libvlc_audio_output_device_types_t::libvlc_AudioOutputDevice_6_1),
            8 => Some(libvlc_audio_output_device_types_t::libvlc_AudioOutputDevice_7_1),
            10 => Some(libvlc_audio_output_device_types_t::libvlc_AudioOutputDevice_SPDIF),
            _ => None,
        }
    }
}

/// Channel modes of the audio output.
#[allow(non_camel_case_types)]
#[derive(Clone, Copy, Debug, PartialEq, Eq, Structural)]
pub enum libvlc_audio_output_channel_t {
    libvlc_AudioChannel_Error,
    libvlc_AudioChannel_Stereo,
    libvlc_AudioChannel_RStereo,
    libvlc_AudioChannel_Left,
    libvlc_AudioChannel_Right,
    libvlc_AudioChannel_Dolbys,
}

impl libvlc_audio_output_channel_t {
    /// The value the native header gives this option.
    pub open spec fn native_code(self) -> int {
        match self {
            libvlc_audio_output_channel_t::libvlc_AudioChannel_Error => -1,
            libvlc_audio_output_channel_t::libvlc_AudioChannel_Stereo => 1,
            libvlc_audio_output_channel_t::libvlc_AudioChannel_RStereo => 2,
            libvlc_audio_output_channel_t::libvlc_AudioChannel_Left => 3,
            libvlc_audio_output_channel_t::libvlc_AudioChannel_Right => 4,
            libvlc_audio_output_channel_t::libvlc_AudioChannel_Dolbys => 5,
        }
    }

    /// The integer passed to the native library for this option.
    pub fn to_native(self) -> (r: i32)
        ensures
            r as int == self.native_code(),
    {
        match self {
            libvlc_audio_output_channel_t::libvlc_AudioChannel_Error => -1,
            libvlc_audio_output_channel_t::libvlc_AudioChannel_Stereo => 1,
            libvlc_audio_output_channel_t::libvlc_AudioChannel_RStereo => 2,
            libvlc_audio_output_channel_t::libvlc_AudioChannel_Left => 3,
            libvlc_audio_output_channel_t::libvlc_AudioChannel_Right => 4,
            libvlc_audio_output_channel_t::libvlc_AudioChannel_Dolbys => 5,
        }
    }

    /// The option with native value `code`, if there is one.
    pub fn from_native(code: i32) -> (r: Option<Self>)
        ensures
            r matches Some(v) ==> v.native_code() == code as int,
            r is None ==> forall|v: Self| v.native_code() != code as int,
    {
        match code {
            -1 => Some(libvlc_audio_output_channel_t::libvlc_AudioChannel_Error),
            1 => Some(libvlc_audio_output_channel_t::libvlc_AudioChannel_Stereo),
            2 => Some(libvlc_audio_output_channel_t::libvlc_AudioChannel_RStereo),
            3 => Some(libvlc_audio_output_channel_t::libvlc_AudioChannel_Left),
            4 => Some(libvlc_audio_output_channel_t::libvlc_AudioChannel_Right),
            5 => Some(libvlc_audio_output_channel_t::libvlc_AudioChannel_Dolbys),
            _ => None,
        }
    }
}

/// Event payload: The new duration of a media, in milliseconds.
#[allow(non_camel_case_types)]
#[derive(Clone, Copy, Debug, PartialEq, Eq, Structural)]
pub struct media_duration_changed {
    pub new_duration: i64,
}

/// Event payload: The new playback time of a player, in milliseconds.
#[allow(non_camel_case_types)]
#[derive(Clone, Copy, Debug, PartialEq, Eq, Structural)]
pub struct media_player_time_changed {
    pub new_time: i64,
}

/// Event payload: The new length of the media a player plays, in milliseconds.
#[allow(non_camel_case_types)]
#[derive(Clone, Copy, Debug, PartialEq, Eq, Structural)]
pub struct media_player_length_changed {
    pub new_length: i64,
}

} // verus!
