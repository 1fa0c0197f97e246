use vstd::prelude::*;

verus! {

/// Width of the window, in pixels, unless configured otherwise.
pub const WINDOW_WIDTH: u32 = 1280;

/// Height of the window, in pixels, unless configured otherwise.
pub const WINDOW_HEIGHT: u32 = 720;

/// Startup settings of the window and its OpenGL context.
pub struct AppConfig {
    window_title: String,
    window_width: u32,
    window_height: u32,
    gl_context_version_major: u8,
    gl_context_version_minor: u8,
}

impl AppConfig {
    pub closed spec fn title_spec(&self) -> Seq<char> {
        self.window_title@
    }

    pub closed spec fn width_spec(&self) -> int {
        self.window_width as int
    }

    pub closed spec fn height_spec(&self) -> int {
        self.window_height as int
    }

    pub closed spec fn gl_version_spec(&self) -> (int, int) {
        (self.gl_context_version_major as int, self.gl_context_version_minor as int)
    }

    pub fn window_title(&self) -> (r: &str)
        ensures
            r@ == self.title_spec(),
    {
        self.window_title.as_str()
    }

    pub fn window_width(&self) -> (r: u32)
        ensures
            r == self.width_spec(),
    {
        self.window_width
    }

    pub fn window_height(&self) -> (r: u32)
        ensures
            r == self.height_spec(),
    {
        self.window_height
    }

    /// Major and minor version of the OpenGL core profile to ask for.
    pub fn gl_context_version(&self) -> (r: (u8, u8))
        ensures
            r.0 == self.gl_version_spec().0,
            r.1 == self.gl_version_spec().1,
    {
        (self.gl_context_version_major, self.gl_context_version_minor)
    }

    /// The middle of the window, where the pointer is put when it is grabbed.
    pub fn window_center(&self) -> (r: (i32, i32))
        ensures
            r.0 == self.width_spec() / 2,
            r.1 == self.height_spec() / 2,
    {
        ((self.window_width / 2) as i32, (self.window_height / 2) as i32)
    }
}

impl Clone for AppConfig {
    fn clone(&self) -> (r: Self)
        ensures
            r == *self,
    {
        AppConfig {
            window_title: self.window_title.clone(),
            window_width: self.window_width,
            window_height: self.window_height,
            gl_context_version_major: self.gl_context_version_major,
            gl_context_version_minor: self.gl_context_version_minor,
        }
    }
}

impl Default for AppConfig {
    /// A 1280 by 720 window titled "App" with an OpenGL 3.3 context.
    fn default() -> (r: Self)
        ensures
            r.title_spec() == "App"@,
            r.width_spec() == WINDOW_WIDTH,
            r.height_spec() == WINDOW_HEIGHT,
            r.gl_version_spec() == (3int, 3int),
    {
        AppConfig {
            window_title: "App".to_owned(),
            window_width: WINDOW_WIDTH,
            window_height: WINDOW_HEIGHT,
            gl_context_version_major: 3,
            gl_context_version_minor: 3,
        }
    }
}

/// Collects the settings of an application before its window is opened.
pub struct AppBuilder {
    config: AppConfig,
}

impl AppBuilder {
    pub closed spec fn config_spec(&self) -> AppConfig {
        self.config
    }

    /// A builder holding the default settings.
    pub fn new() -> (r: Self)
        ensures
            r.config_spec().title_spec() == "App"@,
            r.config_spec().width_spec() == WINDOW_WIDTH,
            r.config_spec().height_spec() == WINDOW_HEIGHT,
            r.config_spec().gl_version_spec() == (3int, 3int),
    {
        AppBuilder { config: AppConfig::default() }
    }

    /// The settings collected so far.
    pub fn config(&self) -> (r: &AppConfig)
        ensures
            *r == self.config_spec(),
    {
        &self.config
    }

    pub fn window_title(&mut self, window_title: &str) -> (r: &mut Self)
        ensures
            r.config_spec().title_spec() == window_title@,
            r.config_spec().width_spec() == old(self).config_spec().width_spec(),
            r.config_spec().height_spec() == old(self).config_spec().height_spec(),
            r.config_spec().gl_version_spec() == old(self).config_spec().gl_version_spec(),
            *final(self) == *final(r),
    {
        self.config.window_title = window_title.to_owned();
        self
    }

    pub fn window_size(&mut self, width: u32, height: u32) -> (r: &mut Self)
        ensures
            r.config_spec().title_spec() == old(self).config_spec().title_spec(),
            r.config_spec().width_spec() == width,
            r.config_spec().height_spec() == height,
            r.config_spec().gl_version_spec() == old(self).config_spec().gl_version_spec(),
            *final(self) == *final(r),
    {
        self.config.window_width = width;
        self.config.window_height = height;
        self
    }

    pub fn gl_context_version(&mut self, major: u8, minor: u8) -> (r: &mut Self)
        ensures
            r.config_spec().title_spec() == old(self).config_spec().title_spec(),
            r.config_spec().width_spec() == old(self).config_spec().width_spec(),
            r.config_spec().height_spec() == old(self).config_spec().height_spec(),
            r.config_spec().gl_version_spec() == (major as int, minor as int),
            *final(self) == *final(r),
    {
        self.config.gl_context_version_major = major;
        self.config.gl_context_version_minor = minor;
        self
    }
}

impl Default for AppBuilder {
    fn default() -> (r: Self)
        ensures
            r.config_spec().title_spec() == "App"@,
            r.config_spec().width_spec() == WINDOW_WIDTH,
            r.config_spec().height_spec() == WINDOW_HEIGHT,
            r.config_spec().gl_version_spec() == (3int, 3int),
    {
        AppBuilder::new()
    }
}

} // verus!
