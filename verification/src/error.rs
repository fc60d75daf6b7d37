use vstd::prelude::*;

verus! {

/// What can go wrong while drawing.
#[derive(Debug)]
pub enum RenderError {
    DeviceLost,
    CreateFailed(String),
    DrawFailed(String),
}

impl RenderError {
    /// The text that describes the error.
    pub open spec fn message_of(&self) -> Seq<char> {
        match self {
            RenderError::DeviceLost => "device lost"@,
            RenderError::CreateFailed(what) => "create failed: "@ + what@,
            RenderError::DrawFailed(what) => "draw failed: "@ + what@,
        }
    }

    /// The text that describes the error.
    pub fn message(&self) -> (text: String)
        ensures
            text@ == self.message_of(),
    {
        match self {
            RenderError::DeviceLost => "device lost".to_owned(),
            RenderError::CreateFailed(what) => "create failed: ".to_owned().concat(what.as_str()),
            RenderError::DrawFailed(what) => "draw failed: ".to_owned().concat(what.as_str()),
        }
    }
}

/// What can go wrong while listening for keys.
#[derive(Debug)]
pub enum HookError {
    SetHookFailed(String),
    MessageLoopFailed,
}

impl HookError {
    /// The text that describes the error.
    pub open spec fn message_of(&self) -> Seq<char> {
        match self {
            HookError::SetHookFailed(what) => "set hook failed: "@ + what@,
            HookError::MessageLoopFailed => "message loop failed"@,
        }
    }

    /// The text that describes the error.
    pub fn message(&self) -> (text: String)
        ensures
            text@ == self.message_of(),
    {
        match self {
            HookError::SetHookFailed(what) => "set hook failed: ".to_owned().concat(what.as_str()),
            HookError::MessageLoopFailed => "message loop failed".to_owned(),
        }
    }
}

/// What can be wrong with a configuration.
#[derive(Debug)]
pub enum ConfigError {
    /// A rule is broken; the text names it.
    ValidationError(String),
}

impl ConfigError {
    /// The text that describes the error.
    pub open spec fn message_of(&self) -> Seq<char> {
        match self {
            ConfigError::ValidationError(what) => "validation error: "@ + what@,
        }
    }

    /// The text that describes the error.
    pub fn message(&self) -> (text: String)
        ensures
            text@ == self.message_of(),
    {
        match self {
            ConfigError::ValidationError(what) => "validation error: ".to_owned().concat(
                what.as_str(),
            ),
        }
    }
}

/// Everything that can go wrong in the program.
#[derive(Debug)]
pub enum AppError {
    /// A call of the platform failed.
    Win32(String),
    Render(RenderError),
    Config(ConfigError),
    Hook(HookError),
}

impl AppError {
    /// The text that describes the error: that of the error inside, but
    /// for a failed call of the platform.
    pub open spec fn message_of(&self) -> Seq<char> {
        match self {
            AppError::Win32(what) => "Win32 error: "@ + what@,
            AppError::Render(inner) => inner.message_of(),
            AppError::Config(inner) => inner.message_of(),
            AppError::Hook(inner) => inner.message_of(),
        }
    }

    /// The text that describes the error.
    pub fn message(&self) -> (text: String)
        ensures
            text@ == self.message_of(),
    {
        match self {
            AppError::Win32(what) => "Win32 error: ".to_owned().concat(what.as_str()),
            AppError::Render(inner) => inner.message(),
            AppError::Config(inner) => inner.message(),
            AppError::Hook(inner) => inner.message(),
        }
    }
}

} // verus!
