use vstd::prelude::*;

verus! {

/// The failure kinds of the library. Every fallible step surfaces its error
/// immediately; the only local recovery is the measurement fallback of the
/// capture controller.
#[derive(Debug, Clone)]
pub enum MdvewError {
    /// A file could not be read.
    ReadFile { path: String, message: String },
    /// A file could not be written.
    WriteFile { path: String, message: String },
    /// Some other input/output failure.
    Io { message: String },
    /// The external browser process could not be started.
    BrowserLaunch { message: String },
    /// A protocol call failed after the browser process had started.
    Browser { message: String },
    /// The screenshot payload was not valid base64.
    Base64Decode { message: String },
    /// The captured bytes were not a decodable image.
    ImageDecode { message: String },
    /// The terminal rendering step rejected the image.
    Display { message: String },
}

/// The single descriptive line shown for an error: the stage that failed
/// and the underlying cause.
pub open spec fn spec_error_line(e: MdvewError) -> Seq<char> {
    match e {
        MdvewError::ReadFile { path, message } => "Failed to read file "@ + path@ + ": "@
            + message@,
        MdvewError::WriteFile { path, message } => "Failed to write file "@ + path@ + ": "@
            + message@,
        MdvewError::Io { message } => "IO error: "@ + message@,
        MdvewError::BrowserLaunch { message } => "Failed to launch browser: "@ + message@
            + "\nEnsure Chrome/Chromium is installed.\nDebian/Ubuntu: sudo apt install chromium-browser\nArch: sudo pacman -S chromium\nmacOS: brew install --cask chromium"@,
        MdvewError::Browser { message } => "Browser error: "@ + message@,
        MdvewError::Base64Decode { message } => "Failed to decode screenshot: "@ + message@,
        MdvewError::ImageDecode { message } => "Failed to decode image: "@ + message@,
        MdvewError::Display { message } => "Failed to display image: "@ + message@,
    }
}

impl MdvewError {
    /// A human-readable description: which stage failed, and the cause.
    pub fn error_line(&self) -> (r: String)
        ensures
            r@ == spec_error_line(*self),
    {
        match self {
            MdvewError::ReadFile { path, message } => {
                let mut s = String::from_str("Failed to read file ");
                s.append(path.as_str());
                s.append(": ");
                s.append(message.as_str());
                s
            },
            MdvewError::WriteFile { path, message } => {
                let mut s = String::from_str("Failed to write file ");
                s.append(path.as_str());
                s.append(": ");
                s.append(message.as_str());
                s
            },
            MdvewError::Io { message } => {
                let mut s = String::from_str("IO error: ");
                s.append(message.as_str());
                s
            },
            MdvewError::BrowserLaunch { message } => {
                let mut s = String::from_str("Failed to launch browser: ");
                s.append(message.as_str());
                s.append(
                    "\nEnsure Chrome/Chromium is installed.\nDebian/Ubuntu: sudo apt install chromium-browser\nArch: sudo pacman -S chromium\nmacOS: brew install --cask chromium",
                );
                s
            },
            MdvewError::Browser { message } => {
                let mut s = String::from_str("Browser error: ");
                s.append(message.as_str());
                s
            },
            MdvewError::Base64Decode { message } => {
                let mut s = String::from_str("Failed to decode screenshot: ");
                s.append(message.as_str());
                s
            },
            MdvewError::ImageDecode { message } => {
                let mut s = String::from_str("Failed to decode image: ");
                s.append(message.as_str());
                s
            },
            MdvewError::Display { message } => {
                let mut s = String::from_str("Failed to display image: ");
                s.append(message.as_str());
                s
            },
        }
    }
}

} // verus!
