use bili_sync::error::UploadError;
use bili_sync::text::decimal;

#[test]
fn decimal_matches_format() {
    for n in [0, 7, 10, 200, -1, -403, i32::MAX, i32::MIN] {
        assert_eq!(decimal(n), format!("{}", n));
    }
}

#[test]
fn messages_carry_context_and_cause() {
    let e = UploadError::NoRelativePath { path: "/x/a.mp4".to_string(), cause: "prefix not found".to_string() };
    assert_eq!(e.message(), "无法计算相对路径：/x/a.mp4: prefix not found");
    let e = UploadError::UnreadableReply { body: "<html>".to_string(), cause: "expected value at line 1 column 1".to_string() };
    assert_eq!(e.message(), "解析 OpenList 响应失败：<html>: expected value at line 1 column 1");
    let e = UploadError::Api { code: -5, message: "bad".to_string() };
    assert_eq!(e.message(), "OpenList API 返回错误：-5 bad");
    let e = UploadError::RequestFailed { status: "404 Not Found".to_string(), body: "x".to_string() };
    assert_eq!(e.message(), "OpenList 请求失败：404 Not Found x");
}

#[test]
fn messages_of_plain_errors() {
    assert_eq!(UploadError::NoParentDirectory { path: "v.mp4".to_string() }.message(), "无法获取视频文件的父目录：v.mp4");
    assert_eq!(UploadError::NoYoutubeParentDirectory { path: "/".to_string() }.message(), "无法获取 YouTube 视频文件的父目录：/");
    assert_eq!(UploadError::NotADirectory { path: "/d".to_string() }.message(), "待上传目录不存在或不是目录：/d");
    assert_eq!(UploadError::EmptyDirectory { path: "/d".to_string() }.message(), "待上传目录为空：/d");
    assert_eq!(UploadError::NonUtf8Path.message(), "文件路径包含非 UTF-8 字符，无法上传");
    assert_eq!(UploadError::EmptyEndpoint.message(), "OpenList 地址为空");
    assert_eq!(UploadError::NoAuth.message(), "OpenList 自动上传未配置认证信息");
    assert_eq!(UploadError::InvalidHeaderValue { message: "bad value".to_string() }.message(), "bad value");
    assert_eq!(UploadError::MissingToken.message(), "OpenList 登录响应中缺少 token");
    assert_eq!(UploadError::AttemptsExhausted { last_error: None }.message(), "自动上传失败");
    assert_eq!(UploadError::AttemptsExhausted { last_error: Some("timeout".to_string()) }.message(), "timeout");
    assert_eq!(UploadError::FilesFailed { messages: "a\nb".to_string() }.message(), "a\nb");
}

#[test]
fn invalid_header_message_matches_http() {
    let e = reqwest::header::HeaderValue::from_str("\n").unwrap_err();
    match bili_sync::openlist::upload_headers("bad\ntoken", "/a") {
        Err(err @ UploadError::InvalidHeaderValue { .. }) => assert_eq!(err.message(), e.to_string()),
        _ => panic!("the token should be refused"),
    }
}
