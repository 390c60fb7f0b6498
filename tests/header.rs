use vlc_static::sys::{
    libvlc_audio_output_channel_t, libvlc_audio_output_device_types_t, libvlc_navigate_mode_t,
    libvlc_video_logo_option_t, libvlc_video_marquee_option_t, media_duration_changed,
    media_player_length_changed, media_player_time_changed,
};
use vlc_static::sys::libvlc_audio_output_device_types_t::{
    libvlc_AudioOutputDevice_2F2R, libvlc_AudioOutputDevice_Error, libvlc_AudioOutputDevice_SPDIF,
};

#[test]
fn marquee_codes() {
    assert_eq!(libvlc_video_marquee_option_t::libvlc_marquee_Enable.to_native(), 0);
    assert_eq!(libvlc_video_marquee_option_t::libvlc_marquee_Y.to_native(), 9);
    assert_eq!(
        libvlc_video_marquee_option_t::from_native(4),
        Some(libvlc_video_marquee_option_t::libvlc_marquee_Position)
    );
    assert_eq!(libvlc_video_marquee_option_t::from_native(10), None);
}

#[test]
fn navigate_and_logo_codes() {
    assert_eq!(libvlc_navigate_mode_t::libvlc_navigate_right.to_native(), 4);
    assert_eq!(libvlc_navigate_mode_t::from_native(-1), None);
    assert_eq!(libvlc_video_logo_option_t::libvlc_logo_position.to_native(), 7);
    assert_eq!(
        libvlc_video_logo_option_t::from_native(1),
        Some(libvlc_video_logo_option_t::libvlc_logo_file)
    );
}

#[test]
fn audio_codes_with_gaps() {
    assert_eq!(libvlc_AudioOutputDevice_Error.to_native(), -1);
    assert_eq!(libvlc_AudioOutputDevice_SPDIF.to_native(), 10);
    assert_eq!(libvlc_audio_output_device_types_t::from_native(3), None);
    assert_eq!(libvlc_audio_output_device_types_t::from_native(4), Some(libvlc_AudioOutputDevice_2F2R));
    assert_eq!(libvlc_audio_output_channel_t::libvlc_AudioChannel_Dolbys.to_native(), 5);
    assert_eq!(
        libvlc_audio_output_channel_t::from_native(-1),
        Some(libvlc_audio_output_channel_t::libvlc_AudioChannel_Error)
    );
    assert_eq!(libvlc_audio_output_channel_t::from_native(0), None);
}

#[test]
fn event_payloads() {
    let d = media_duration_changed { new_duration: 1500 };
    let t = media_player_time_changed { new_time: 250 };
    let l = media_player_length_changed { new_length: 90_000 };
    assert_eq!(d.new_duration + t.new_time, 1750);
    assert_eq!(l, media_player_length_changed { new_length: 90_000 });
}
