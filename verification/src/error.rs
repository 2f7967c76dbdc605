//! The errors that the upload logic reports.

use vstd::prelude::*;
use crate::text::{decimal_text, owned, push_str};

verus! {

/// Why an upload step failed. Each variant carries what its message shows.
#[derive(Debug)]
pub enum UploadError {
    /// The video file has no parent directory.
    NoParentDirectory { path: String },
    /// The YouTube video file has no parent directory.
    NoYoutubeParentDirectory { path: String },
    /// The directory to upload does not exist or is not a directory.
    NotADirectory { path: String },
    /// The directory to upload holds no file to upload.
    EmptyDirectory { path: String },
    /// The file does not lie under the base directory; `cause` is why.
    NoRelativePath { path: String, cause: String },
    /// The relative path is not valid UTF-8.
    NonUtf8Path,
    /// The configured endpoint is empty once trailing slashes are removed.
    EmptyEndpoint,
    /// No OpenList credentials are configured.
    NoAuth,
    /// A header value holds a byte that HTTP refuses; `message` is how the
    /// HTTP library reports it.
    InvalidHeaderValue { message: String },
    /// The server answered with a status outside 200..=299.
    RequestFailed { status: String, body: String },
    /// The server's body could not be read as an OpenList reply; `cause` is
    /// why.
    UnreadableReply { body: String, cause: String },
    /// The OpenList reply carries a code other than 0 or 200.
    Api { code: i32, message: String },
    /// The login reply carries no token.
    MissingToken,
    /// The server answered the login with a client or server error status;
    /// `message` is how the HTTP client reports it.
    LoginRefused { message: String },
    /// The body of the login reply could not be decoded; `cause` is why.
    UnreadableLoginReply { cause: String },
    /// Every attempt to upload the file failed; the last error, if any.
    AttemptsExhausted { last_error: Option<String> },
    /// Some files of a directory failed; one line per failed file.
    FilesFailed { messages: String },
}

} // verus!

verus! {

/// The text by which the uploader reports an error; a cause follows its
/// context after `: `.
pub open spec fn message_text(e: UploadError) -> Seq<char> {
    match e {
        UploadError::NoParentDirectory { path } => "无法获取视频文件的父目录："@ + path@,
        UploadError::NoYoutubeParentDirectory { path } => "无法获取 YouTube 视频文件的父目录："@
            + path@,
        UploadError::NotADirectory { path } => "待上传目录不存在或不是目录："@ + path@,
        UploadError::EmptyDirectory { path } => "待上传目录为空："@ + path@,
        UploadError::NoRelativePath { path, cause } => "无法计算相对路径："@ + path@ + ": "@
            + cause@,
        UploadError::NonUtf8Path => "文件路径包含非 UTF-8 字符，无法上传"@,
        UploadError::EmptyEndpoint => "OpenList 地址为空"@,
        UploadError::NoAuth => "OpenList 自动上传未配置认证信息"@,
        UploadError::InvalidHeaderValue { message } => message@,
        UploadError::RequestFailed { status, body } => "OpenList 请求失败："@ + status@ + " "@
            + body@,
        UploadError::UnreadableReply { body, cause } => "解析 OpenList 响应失败："@ + body@
            + ": "@ + cause@,
        UploadError::Api { code, message } => "OpenList API 返回错误："@ + decimal_text(
            code as int,
        ) + " "@ + message@,
        UploadError::MissingToken => "OpenList 登录响应中缺少 token"@,
        UploadError::LoginRefused { message } => message@,
        UploadError::UnreadableLoginReply { cause } => cause@,
        UploadError::AttemptsExhausted { last_error } => match last_error {
            Some(e) => e@,
            None => "自动上传失败"@,
        },
        UploadError::FilesFailed { messages } => messages@,
    }
}

fn text_then(head: &str, tail: &str) -> (r: String)
    ensures
        r@ == head@ + tail@,
{
    let mut r = owned(head);
    push_str(&mut r, tail);
    r
}

fn text_then_cause(head: &str, middle: &str, sep: &str, tail: &str) -> (r: String)
    ensures
        r@ == head@ + middle@ + sep@ + tail@,
{
    let mut r = owned(head);
    push_str(&mut r, middle);
    push_str(&mut r, sep);
    push_str(&mut r, tail);
    r
}

impl UploadError {
    /// The text by which the uploader reports this error.
    pub fn message(&self) -> (r: String)
        ensures
            r@ == message_text(*self),
    {
        match self {
            UploadError::NoParentDirectory { path } => text_then(
                "无法获取视频文件的父目录：",
                path.as_str(),
            ),
            UploadError::NoYoutubeParentDirectory { path } => text_then(
                "无法获取 YouTube 视频文件的父目录：",
                path.as_str(),
            ),
            UploadError::NotADirectory { path } => text_then(
                "待上传目录不存在或不是目录：",
                path.as_str(),
            ),
            UploadError::EmptyDirectory { path } => text_then("待上传目录为空：", path.as_str()),
            UploadError::NoRelativePath { path, cause } => text_then_cause(
                "无法计算相对路径：",
                path.as_str(),
                ": ",
                cause.as_str(),
            ),
            UploadError::NonUtf8Path => owned("文件路径包含非 UTF-8 字符，无法上传"),
            UploadError::EmptyEndpoint => owned("OpenList 地址为空"),
            UploadError::NoAuth => owned("OpenList 自动上传未配置认证信息"),
            UploadError::InvalidHeaderValue { message } => owned(message.as_str()),
            UploadError::RequestFailed { status, body } => text_then_cause(
                "OpenList 请求失败：",
                status.as_str(),
                " ",
                body.as_str(),
            ),
            UploadError::UnreadableReply { body, cause } => text_then_cause(
                "解析 OpenList 响应失败：",
                body.as_str(),
                ": ",
                cause.as_str(),
            ),
            UploadError::Api { code, message } => {
                let digits = crate::text::decimal(*code);
                text_then_cause("OpenList API 返回错误：", digits.as_str(), " ", message.as_str())
            },
            UploadError::MissingToken => owned("OpenList 登录响应中缺少 token"),
            UploadError::LoginRefused { message } => owned(message.as_str()),
            UploadError::UnreadableLoginReply { cause } => owned(cause.as_str()),
            UploadError::AttemptsExhausted { last_error } => match last_error {
                Some(e) => owned(e.as_str()),
                None => owned("自动上传失败"),
            },
            UploadError::FilesFailed { messages } => owned(messages.as_str()),
        }
    }
}

} // verus!
