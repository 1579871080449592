//! Display and terminal configuration captured when a connection is opened:
//! each option is either an explicit value — an explicit empty value meaning
//! "unset the variable for the child" — or inherited from the parent.

use vstd::prelude::*;
use vstd::string::StringExecFns;

verus! {

/// What to do with one of the child's environment variables.
pub enum EnvAction<'a> {
    /// Leave the variable as the parent has it.
    Inherit,
    /// Remove the variable for the child.
    Unset,
    /// Give the variable this value.
    Assign(&'a str),
}

/// Display and terminal options.
#[derive(Clone, Copy, Debug)]
pub struct Options<'a> {
    tty_name: Option<&'a str>,
    tty_type: Option<&'a str>,
    x11_display: Option<&'a str>,
    wayland_display: Option<&'a str>,
}

/// A builder for [`Options`].
pub struct OptionsBuilder<'a> {
    inner: Options<'a>,
}

impl<'a> Options<'a> {
    /// The configured terminal device name, if any.
    pub closed spec fn spec_tty_name(&self) -> Option<Seq<char>> {
        self.tty_name.deep_view()
    }

    /// The configured terminal type, if any.
    pub closed spec fn spec_tty_type(&self) -> Option<Seq<char>> {
        self.tty_type.deep_view()
    }

    /// The configured X11 display override, if any.
    pub closed spec fn spec_x11_display(&self) -> Option<Seq<char>> {
        self.x11_display.deep_view()
    }

    /// The configured Wayland display override, if any.
    pub closed spec fn spec_wayland_display(&self) -> Option<Seq<char>> {
        self.wayland_display.deep_view()
    }

    /// Prepares a new builder with every option inherited.
    pub fn builder() -> (r: OptionsBuilder<'a>)
        ensures
            r.spec_options().spec_tty_name() is None,
            r.spec_options().spec_tty_type() is None,
            r.spec_options().spec_x11_display() is None,
            r.spec_options().spec_wayland_display() is None,
    {
        OptionsBuilder {
            inner: Options {
                tty_name: None,
                tty_type: None,
                x11_display: None,
                wayland_display: None,
            },
        }
    }

    /// The terminal device to hand to the helper: the configured name, or
    /// `/dev/tty` when none was configured.
    pub fn tty_name(&self) -> (r: &'a str)
        ensures
            match self.spec_tty_name() {
                Some(t) => r@ == t,
                None => r@ == "/dev/tty"@,
            },
    {
        match self.tty_name {
            Some(t) => t,
            None => "/dev/tty",
        }
    }

    /// The terminal type to hand to the helper: the configured type; else
    /// the given `TERM` value from the environment; else `xterm-256color`.
    pub fn tty_type<'b>(&'b self, term: Option<&'b str>) -> (r: &'b str)
        ensures
            match self.spec_tty_type() {
                Some(t) => r@ == t,
                None => match term {
                    Some(t) => r@ == t@,
                    None => r@ == "xterm-256color"@,
                },
            },
    {
        match self.tty_type {
            Some(t) => t,
            None => match term {
                Some(t) => t,
                None => "xterm-256color",
            },
        }
    }

    /// The parameter of the `OPTION ttyname=` request.
    pub fn tty_name_parameter(&self) -> (r: String)
        ensures
            match self.spec_tty_name() {
                Some(t) => r@ == "ttyname="@ + t,
                None => r@ == "ttyname="@ + "/dev/tty"@,
            },
    {
        let mut s = String::from_str("ttyname=");
        s.append(self.tty_name());
        s
    }

    /// The parameter of the `OPTION ttytype=` request, given the `TERM`
    /// value from the environment.
    pub fn tty_type_parameter<'b>(&'b self, term: Option<&'b str>) -> (r: String)
        ensures
            match self.spec_tty_type() {
                Some(t) => r@ == "ttytype="@ + t,
                None => match term {
                    Some(t) => r@ == "ttytype="@ + t@,
                    None => r@ == "ttytype="@ + "xterm-256color"@,
                },
            },
    {
        let mut s = String::from_str("ttytype=");
        s.append(self.tty_type(term));
        s
    }

    /// What to do with the child's `DISPLAY` variable: inherit when no
    /// override was configured, unset on an explicit empty override, assign
    /// otherwise.
    pub fn x11_display_action(&self) -> (r: EnvAction<'a>)
        ensures
            match self.spec_x11_display() {
                None => r is Inherit,
                Some(v) => if v.len() == 0 {
                    r is Unset
                } else {
                    (r matches EnvAction::Assign(s) && s@ == v)
                },
            },
    {
        match self.x11_display {
            None => EnvAction::Inherit,
            Some(v) => if v.is_empty() {
                EnvAction::Unset
            } else {
                EnvAction::Assign(v)
            },
        }
    }

    /// What to do with the child's `WAYLAND_DISPLAY` variable, by the same
    /// rule as [`Options::x11_display_action`].
    pub fn wayland_display_action(&self) -> (r: EnvAction<'a>)
        ensures
            match self.spec_wayland_display() {
                None => r is Inherit,
                Some(v) => if v.len() == 0 {
                    r is Unset
                } else {
                    (r matches EnvAction::Assign(s) && s@ == v)
                },
            },
    {
        match self.wayland_display {
            None => EnvAction::Inherit,
            Some(v) => if v.is_empty() {
                EnvAction::Unset
            } else {
                EnvAction::Assign(v)
            },
        }
    }
}

impl<'a> Default for Options<'a> {
    /// Every option inherited.
    fn default() -> (r: Self)
        ensures
            r.spec_tty_name() is None,
            r.spec_tty_type() is None,
            r.spec_x11_display() is None,
            r.spec_wayland_display() is None,
    {
        Options { tty_name: None, tty_type: None, x11_display: None, wayland_display: None }
    }
}

impl<'a> OptionsBuilder<'a> {
    /// The options built so far.
    pub closed spec fn spec_options(&self) -> Options<'a> {
        self.inner
    }

    /// Sets the name of the terminal device to use.
    ///
    /// Defaults to `/dev/tty`.
    pub fn tty_name(self, tty_name: &'a str) -> (r: Self)
        ensures
            r.spec_options().spec_tty_name() == Some(tty_name@),
            r.spec_options().spec_tty_type() == self.spec_options().spec_tty_type(),
            r.spec_options().spec_x11_display() == self.spec_options().spec_x11_display(),
            r.spec_options().spec_wayland_display()
                == self.spec_options().spec_wayland_display(),
    {
        let mut b = self;
        b.inner.tty_name = Some(tty_name);
        b
    }

    /// Sets the type of the terminal device to use.
    ///
    /// Defaults to the contents of the `TERM` environment variable; if that
    /// is unset or unreadable, defaults to `xterm-256color`.
    pub fn tty_type(self, tty_type: &'a str) -> (r: Self)
        ensures
            r.spec_options().spec_tty_type() == Some(tty_type@),
            r.spec_options().spec_tty_name() == self.spec_options().spec_tty_name(),
            r.spec_options().spec_x11_display() == self.spec_options().spec_x11_display(),
            r.spec_options().spec_wayland_display()
                == self.spec_options().spec_wayland_display(),
    {
        let mut b = self;
        b.inner.tty_type = Some(tty_type);
        b
    }

    /// Sets the X11 display to use.
    ///
    /// Defaults to the configured display of the parent process, via its
    /// `DISPLAY` environment variable. Passing the empty string causes
    /// `DISPLAY` to be explicitly unset for the helper. This only has an
    /// effect if the helper uses X11.
    pub fn x11_display(self, x11_display: &'a str) -> (r: Self)
        ensures
            r.spec_options().spec_x11_display() == Some(x11_display@),
            r.spec_options().spec_tty_name() == self.spec_options().spec_tty_name(),
            r.spec_options().spec_tty_type() == self.spec_options().spec_tty_type(),
            r.spec_options().spec_wayland_display()
                == self.spec_options().spec_wayland_display(),
    {
        let mut b = self;
        b.inner.x11_display = Some(x11_display);
        b
    }

    /// Sets the Wayland display to use.
    ///
    /// Defaults to the configured Wayland display of the parent, via its
    /// `WAYLAND_DISPLAY` environment variable. Passing the empty string
    /// causes `WAYLAND_DISPLAY` to be explicitly unset for the helper. This
    /// only has an effect if the helper uses Wayland.
    pub fn wayland_display(self, wayland_display: &'a str) -> (r: Self)
        ensures
            r.spec_options().spec_wayland_display() == Some(wayland_display@),
            r.spec_options().spec_tty_name() == self.spec_options().spec_tty_name(),
            r.spec_options().spec_tty_type() == self.spec_options().spec_tty_type(),
            r.spec_options().spec_x11_display() == self.spec_options().spec_x11_display(),
    {
        let mut b = self;
        b.inner.wayland_display = Some(wayland_display);
        b
    }

    /// Builds the options.
    pub fn build(self) -> (r: Options<'a>)
        ensures
            r == self.spec_options(),
    {
        self.inner
    }
}

impl<'a> Default for OptionsBuilder<'a> {
    /// A builder with every option inherited.
    fn default() -> (r: Self)
        ensures
            r.spec_options().spec_tty_name() is None,
            r.spec_options().spec_tty_type() is None,
            r.spec_options().spec_x11_display() is None,
            r.spec_options().spec_wayland_display() is None,
    {
        Options::builder()
    }
}

} // verus!
