use hlsl_box::error::{Error, ErrorMessages};
use hlsl_box::messages::Messages;
use hlsl_box::settings::{Resolution, Version};

#[test]
fn messages_follow_the_locale() {
    let ja = Messages::new(Some("ja-JP"));
    assert_eq!(ja.screen_shot, "スクリーンショットを撮影");
    assert_eq!(ja.record_video_start, "録画を開始");
    assert_eq!(ja.record_video_end, "録画を終了");

    let en = Messages::new(Some("en-US"));
    assert_eq!(en.screen_shot, "take the screenshot");
    assert_eq!(en.record_video_start, "start recording");
    assert_eq!(en.record_video_end, "end recording");

    let none = Messages::new(None);
    assert_eq!(none.screen_shot, "take the screenshot");
}

#[test]
fn error_messages_follow_the_locale() {
    let en = ErrorMessages::new(None);
    assert_eq!(Error::Api(0x8000_4005).message(&en), "a GPU call failed");
    assert_eq!(Error::SyncWaitFailed.message(&en), "cannot wait for the sync object");
    assert_eq!(Error::EncodeFailed.message(&en), "cannot finalize the video file");
    assert_eq!(Error::RemoveFile.message(&en), "cannot remove the file");
    assert_eq!(Error::UnknownError.message(&en), "unknown error");

    let ja = ErrorMessages::new(Some("ja-JP"));
    assert_eq!(Error::EncodeFailed.message(&ja), "動画ファイルを書き出せません");
    assert_eq!(Error::UnknownError.message(&ja), "特定できないエラーです");
}

#[test]
fn version_parts_in_order() {
    let v = Version { major: 1, minor: 7 };
    assert_eq!(v.parts(), [1, 7]);
}

#[test]
fn resolution_equality() {
    let a = Resolution { width: 640, height: 480 };
    let b = Resolution { width: 640, height: 480 };
    assert_eq!(a, b);
    assert_ne!(a, Resolution { width: 1280, height: 720 });
}
