//! Error kinds of the application and of a recording, with their messages.
use vstd::prelude::*;

verus! {

/// What went wrong while recording a stream.
#[derive(Debug)]
pub enum DownloaderError {
    NoSuitableStreamProtocol,
    NoSuitableVideoFormat,
    NoSuitableVideoCodec,
    NoSuitableAudioCodec,
    StartupFailed { command: String, stderr: String },
    NetworkConnectionFailed { message: String },
    FfmpegFatalError { message: String },
    FileCreationFailed { path: String, reason: String },
    FileWriteFailed { path: String, reason: String },
    InvalidRecordingConfig { field: String, value: String, reason: String },
}

impl Clone for DownloaderError {
    fn clone(&self) -> (r: Self)
        ensures
            r == *self,
    {
        match self {
            DownloaderError::NoSuitableStreamProtocol => DownloaderError::NoSuitableStreamProtocol,
            DownloaderError::NoSuitableVideoFormat => DownloaderError::NoSuitableVideoFormat,
            DownloaderError::NoSuitableVideoCodec => DownloaderError::NoSuitableVideoCodec,
            DownloaderError::NoSuitableAudioCodec => DownloaderError::NoSuitableAudioCodec,
            DownloaderError::StartupFailed { command, stderr } => DownloaderError::StartupFailed {
                command: command.clone(),
                stderr: stderr.clone(),
            },
            DownloaderError::NetworkConnectionFailed { message } => {
                DownloaderError::NetworkConnectionFailed { message: message.clone() }
            },
            DownloaderError::FfmpegFatalError { message } => DownloaderError::FfmpegFatalError {
                message: message.clone(),
            },
            DownloaderError::FileCreationFailed { path, reason } => {
                DownloaderError::FileCreationFailed { path: path.clone(), reason: reason.clone() }
            },
            DownloaderError::FileWriteFailed { path, reason } => DownloaderError::FileWriteFailed {
                path: path.clone(),
                reason: reason.clone(),
            },
            DownloaderError::InvalidRecordingConfig { field, value, reason } => {
                DownloaderError::InvalidRecordingConfig {
                    field: field.clone(),
                    value: value.clone(),
                    reason: reason.clone(),
                }
            },
        }
    }
}

/// The message shown for a recording error.
pub open spec fn downloader_error_message(e: DownloaderError) -> Seq<char> {
    match e {
        DownloaderError::NoSuitableStreamProtocol => "没有找到合适的直播流协议"@,
        DownloaderError::NoSuitableVideoFormat => "没有找到合适的视频格式"@,
        DownloaderError::NoSuitableVideoCodec => "没有找到合适的视频编码"@,
        DownloaderError::NoSuitableAudioCodec => "没有找到合适的音频编码"@,
        DownloaderError::StartupFailed { command, stderr } => "进程启动失败: "@ + command@ + " - "@
            + stderr@,
        DownloaderError::NetworkConnectionFailed { message } => "网络连接失败: "@ + message@,
        DownloaderError::FfmpegFatalError { message } => "ffmpeg 致命错误: "@ + message@,
        DownloaderError::FileCreationFailed { path, reason } => "文件创建失败: "@ + path@ + " - "@
            + reason@,
        DownloaderError::FileWriteFailed { path, reason } => "文件写入失败: "@ + path@ + " - "@
            + reason@,
        DownloaderError::InvalidRecordingConfig { field, value, reason } => "无效的录制配置: "@
            + field@ + " = "@ + value@ + " ("@ + reason@ + ")"@,
    }
}

impl DownloaderError {
    /// Whether recording may go on after the error: every kind of error is
    /// treated as recoverable.
    pub fn is_recoverable(&self) -> (r: bool)
        ensures
            r,
    {
        match self {
            DownloaderError::NoSuitableStreamProtocol
            | DownloaderError::NoSuitableVideoFormat
            | DownloaderError::NoSuitableVideoCodec => true,
            DownloaderError::StartupFailed { .. } => true,
            _ => true,
        }
    }

    /// Whether the recording has to be restarted after the error: every kind
    /// of error asks for a restart.
    pub fn is_requires_restart(&self) -> (r: bool)
        ensures
            r,
    {
        match self {
            DownloaderError::NetworkConnectionFailed { .. } => true,
            DownloaderError::FfmpegFatalError { .. } => true,
            _ => true,
        }
    }

    /// The message shown for the error.
    pub fn message(&self) -> (r: String)
        ensures
            r@ == downloader_error_message(*self),
    {
        match self {
            DownloaderError::NoSuitableStreamProtocol => String::from_str("没有找到合适的直播流协议"),
            DownloaderError::NoSuitableVideoFormat => String::from_str("没有找到合适的视频格式"),
            DownloaderError::NoSuitableVideoCodec => String::from_str("没有找到合适的视频编码"),
            DownloaderError::NoSuitableAudioCodec => String::from_str("没有找到合适的音频编码"),
            DownloaderError::StartupFailed { command, stderr } => {
                let mut s = String::from_str("进程启动失败: ");
                s.append(command.as_str());
                s.append(" - ");
                s.append(stderr.as_str());
                s
            },
            DownloaderError::NetworkConnectionFailed { message } => {
                let mut s = String::from_str("网络连接失败: ");
                s.append(message.as_str());
                s
            },
            DownloaderError::FfmpegFatalError { message } => {
                let mut s = String::from_str("ffmpeg 致命错误: ");
                s.append(message.as_str());
                s
            },
            DownloaderError::FileCreationFailed { path, reason } => {
                let mut s = String::from_str("文件创建失败: ");
                s.append(path.as_str());
                s.append(" - ");
                s.append(reason.as_str());
                s
            },
            DownloaderError::FileWriteFailed { path, reason } => {
                let mut s = String::from_str("文件写入失败: ");
                s.append(path.as_str());
                s.append(" - ");
                s.append(reason.as_str());
                s
            },
            DownloaderError::InvalidRecordingConfig { field, value, reason } => {
                let mut s = String::from_str("无效的录制配置: ");
                s.append(field.as_str());
                s.append(" = ");
                s.append(value.as_str());
                s.append(" (");
                s.append(reason.as_str());
                s.append(")");
                s
            },
        }
    }
}

/// What went wrong in the application.
#[derive(Debug)]
pub enum AppError {
    ApiError(String),
    NetworkError(String),
    FileSystemError(String),
    ConfigError(String),
    DownloadError(String),
    RoomError(String),
    Unknown(String),
}

pub open spec fn app_error_message(e: AppError) -> Seq<char> {
    match e {
        AppError::ApiError(m) => "API请求失败: "@ + m@,
        AppError::NetworkError(m) => "网络错误: "@ + m@,
        AppError::FileSystemError(m) => "文件系统错误: "@ + m@,
        AppError::ConfigError(m) => "配置错误: "@ + m@,
        AppError::DownloadError(m) => "下载错误: "@ + m@,
        AppError::RoomError(m) => "房间错误: "@ + m@,
        AppError::Unknown(m) => "未知错误: "@ + m@,
    }
}

impl AppError {
    /// The message shown for the error.
    pub fn message(&self) -> (r: String)
        ensures
            r@ == app_error_message(*self),
    {
        let (mut s, m) = match self {
            AppError::ApiError(m) => (String::from_str("API请求失败: "), m),
            AppError::NetworkError(m) => (String::from_str("网络错误: "), m),
            AppError::FileSystemError(m) => (String::from_str("文件系统错误: "), m),
            AppError::ConfigError(m) => (String::from_str("配置错误: "), m),
            AppError::DownloadError(m) => (String::from_str("下载错误: "), m),
            AppError::RoomError(m) => (String::from_str("房间错误: "), m),
            AppError::Unknown(m) => (String::from_str("未知错误: "), m),
        };
        s.append(m.as_str());
        s
    }
}

} // verus!
