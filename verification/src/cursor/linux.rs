//! The density of pointers on X11 and Wayland.
use crate::cursor::ids::cache_id;
use vstd::prelude::*;

verus! {

/// How long a density that was read is used, in milliseconds.
pub const X11_SETTINGS_REFRESH_INTERVAL_MS: u64 = 250;

/// The density that was read last. Densities are given by their bit patterns;
/// zero stands for an unknown one.
#[derive(Clone, Copy, Debug, PartialEq, Eq, Structural)]
pub struct X11Density {
    pub last_check_ms: Option<u64>,
    /// Nothing after a failure to read it.
    pub scale_bits: Option<u64>,
}

impl Default for X11Density {
    fn default() -> (r: Self)
        ensures
            r == (X11Density { last_check_ms: None, scale_bits: Some(0) }),
    {
        X11Density { last_check_ms: None, scale_bits: Some(0) }
    }
}

impl X11Density {
    /// The density that was read is recent.
    pub open spec fn fresh(self, now_ms: u64) -> bool {
        self.last_check_ms matches Some(checked) && now_ms - checked
            < X11_SETTINGS_REFRESH_INTERVAL_MS
    }

    /// The density to use.
    pub open spec fn scale(self) -> u64 {
        match self.scale_bits {
            Some(bits) => bits,
            None => 0,
        }
    }

    /// Whether the density has to be read again; if so, that is noted.
    pub fn needs_refresh(&mut self, now_ms: u64) -> (r: bool)
        ensures
            r == !old(self).fresh(now_ms),
            *final(self) == (if r {
                X11Density { last_check_ms: Some(now_ms), ..*old(self) }
            } else {
                *old(self)
            }),
    {
        if let Some(checked) = self.last_check_ms {
            if now_ms.saturating_sub(checked) < X11_SETTINGS_REFRESH_INTERVAL_MS {
                return false;
            }
        }
        self.last_check_ms = Some(now_ms);
        true
    }

    /// Takes what was read, or that nothing could be read. The answer is whether
    /// that is worth a warning: the first failure in a row is.
    pub fn record(&mut self, read: Option<u64>) -> (r: bool)
        ensures
            *final(self) == (X11Density { scale_bits: read, ..*old(self) }),
            r == (read is None && old(self).scale_bits is Some),
    {
        let warn = read.is_none() && self.scale_bits.is_some();
        self.scale_bits = read;
        warn
    }

    /// The density to use for the picture of the pointer that was just identified.
    pub fn x11_cursor_scale(&self) -> (r: u64)
        ensures
            r == self.scale(),
    {
        match self.scale_bits {
            Some(bits) => bits,
            None => 0,
        }
    }

    /// The identifier of a pointer. `read` is what a read of the settings gives,
    /// used only where one is due.
    pub fn x11_cursor_id(&mut self, id: u64, now_ms: u64, read: Option<u64>) -> (r: u64)
        ensures
            *final(self) == (if old(self).fresh(now_ms) {
                *old(self)
            } else {
                X11Density { last_check_ms: Some(now_ms), scale_bits: read }
            }),
            r == crate::cursor::ids::cached_as(id, final(self).scale()),
            !crate::cursor::ids::zero(final(self).scale()) ==> 1 <= r
                <= crate::cursor::ids::MAX_CURSOR_ID,
    {
        if self.needs_refresh(now_ms) {
            let _ = self.record(read);
        }
        cache_id(id, self.x11_cursor_scale())
    }
}

/// The settings property was read whole, as bytes.
pub fn ensure_complete_property(format: u8, bytes_after: u32) -> (r: Result<(), &'static str>)
    ensures
        r is Ok <==> format == 8 && bytes_after == 0,
        r matches Err(e) ==> e@ == "Incomplete XSETTINGS property"@,
{
    if format != 8 || bytes_after != 0 {
        return Err("Incomplete XSETTINGS property");
    }
    Ok(())
}

/// A display of Wayland.
#[derive(Clone, Copy, Debug)]
pub struct WaylandDisplay {
    pub width: i32,
    pub height: i32,
    pub logical_size: Option<(i32, i32)>,
    /// The rotation in degrees.
    pub transform: i32,
    pub scale_factor: i32,
}

/// A density as a fraction.
#[derive(Clone, Copy, Debug, PartialEq, Eq, Structural)]
pub enum Density {
    Unknown,
    Known { pixels: i32, units: i32 },
}

/// The density of a display, where its dimensions make sense.
pub open spec fn density_of(display: WaylandDisplay) -> Option<Density> {
    match display.logical_size {
        None => Some(Density::Unknown),
        Some((units, height)) => {
            let pixels = if display.transform == 90 || display.transform == 270 {
                display.height
            } else {
                display.width
            };
            if units <= 0 || height <= 0 || display.width <= 0 || display.height <= 0 {
                None
            } else if pixels == units && display.scale_factor > 1 {
                Some(Density::Known { pixels: display.scale_factor, units: 1 })
            } else {
                Some(Density::Known { pixels, units })
            }
        },
    }
}

/// The density of a display: its pixels per logical unit, along the edge that is
/// horizontal as the display is turned. Some compositors report physical units;
/// then the density is the factor that they name. A display without logical size
/// has no known density.
pub fn wayland_scale(display: &WaylandDisplay) -> (r: Result<Density, &'static str>)
    ensures
        r is Ok <==> density_of(*display) is Some,
        r matches Ok(density) ==> density_of(*display) == Some(density),
        match display.logical_size {
            None => r == Ok::<Density, &'static str>(Density::Unknown),
            Some((logical_width, logical_height)) => if logical_width <= 0 || logical_height <= 0
                || display.width <= 0 || display.height <= 0 {
                r matches Err(e) && e@ == "Invalid Wayland cursor display dimensions"@
            } else {
                let width = if display.transform == 90 || display.transform == 270 {
                    display.height
                } else {
                    display.width
                };
                if width == logical_width && display.scale_factor > 1 {
                    r == Ok::<Density, &'static str>(
                        Density::Known { pixels: display.scale_factor, units: 1 },
                    )
                } else {
                    r == Ok::<Density, &'static str>(
                        Density::Known { pixels: width, units: logical_width },
                    )
                }
            },
        },
{
    match display.logical_size {
        None => Ok(Density::Unknown),
        Some((logical_width, logical_height)) => {
            if logical_width <= 0 || logical_height <= 0 || display.width <= 0 || display.height
                <= 0 {
                return Err("Invalid Wayland cursor display dimensions");
            }
            let width: i32 = if display.transform == 90 || display.transform == 270 {
                display.height
            } else {
                display.width
            };
            if width == logical_width && display.scale_factor > 1 {
                Ok(Density::Known { pixels: display.scale_factor, units: 1 })
            } else {
                Ok(Density::Known { pixels: width, units: logical_width })
            }
        },
    }
}

/// Pointers that are identified one after the other within the refresh time use
/// the same density, whatever the settings say meanwhile.
pub proof fn law_polls_reuse_density(before: X11Density, now_ms: u64, later_ms: u64)
    requires
        before.last_check_ms == Some(now_ms),
        now_ms <= later_ms < now_ms + X11_SETTINGS_REFRESH_INTERVAL_MS,
    ensures
        before.fresh(later_ms),
{
}

/// What is known of where the settings stand. Zero stands for what is unknown.
#[derive(Clone, Copy, Debug, PartialEq, Eq, Structural)]
pub struct SettingsAtoms {
    pub selection: u32,
    pub property: u32,
}

/// What reading the settings asks the display server for.
#[derive(Clone, Copy, Debug, PartialEq, Eq, Structural)]
pub enum SettingsRequest {
    /// The atom of the settings of the screen.
    SelectionAtom,
    /// The window that owns the settings.
    Owner { selection: u32 },
    /// The atom of the property with the settings.
    PropertyAtom,
    /// The property with the settings.
    Property { owner: u32, property: u32 },
}

/// What the display server answers.
#[derive(Clone, Copy, Debug, PartialEq, Eq, Structural)]
pub enum SettingsAnswer {
    Atom(u32),
    Owner(u32),
    Property { format: u8, bytes_after: u32 },
}

/// What follows an answer.
#[derive(Clone, Copy, Debug, PartialEq, Eq, Structural)]
pub enum SettingsNext {
    Request(SettingsRequest),
    /// Nothing tells a density.
    Unknown,
    /// The property is complete and can be read.
    Complete,
    Incomplete,
}

/// The reading of the settings, with the atoms that are known from earlier ones.
#[derive(Clone, Copy, Debug, PartialEq, Eq, Structural)]
pub struct SettingsRead {
    pub atoms: SettingsAtoms,
    pub owner: u32,
}

impl SettingsRead {
    /// The request that the reading begins with.
    pub open spec fn first_request(self) -> SettingsRequest {
        if self.atoms.selection == 0 {
            SettingsRequest::SelectionAtom
        } else {
            SettingsRequest::Owner { selection: self.atoms.selection }
        }
    }

    /// An answer fits a request.
    pub open spec fn answers(request: SettingsRequest, answer: SettingsAnswer) -> bool {
        match request {
            SettingsRequest::SelectionAtom => answer is Atom,
            SettingsRequest::Owner { .. } => answer is Owner,
            SettingsRequest::PropertyAtom => answer is Atom,
            SettingsRequest::Property { .. } => answer is Property,
        }
    }

    /// What is known once a request was answered.
    pub open spec fn noted(self, request: SettingsRequest, answer: SettingsAnswer) -> SettingsRead {
        match answer {
            SettingsAnswer::Atom(atom) => if request == SettingsRequest::SelectionAtom {
                SettingsRead {
                    atoms: SettingsAtoms { selection: atom, property: self.atoms.property },
                    owner: self.owner,
                }
            } else {
                SettingsRead {
                    atoms: SettingsAtoms { selection: self.atoms.selection, property: atom },
                    owner: self.owner,
                }
            },
            SettingsAnswer::Owner(owner) => SettingsRead { atoms: self.atoms, owner },
            SettingsAnswer::Property { .. } => self,
        }
    }

    /// What follows once a request was answered.
    pub open spec fn following(
        self,
        request: SettingsRequest,
        answer: SettingsAnswer,
    ) -> SettingsNext {
        match answer {
            SettingsAnswer::Atom(atom) => if request != SettingsRequest::SelectionAtom {
                SettingsNext::Request(
                    SettingsRequest::Property { owner: self.owner, property: atom },
                )
            } else if atom == 0 {
                SettingsNext::Unknown
            } else {
                SettingsNext::Request(SettingsRequest::Owner { selection: atom })
            },
            SettingsAnswer::Owner(owner) => if owner == 0 {
                SettingsNext::Unknown
            } else if self.atoms.property == 0 {
                SettingsNext::Request(SettingsRequest::PropertyAtom)
            } else {
                SettingsNext::Request(
                    SettingsRequest::Property { owner, property: self.atoms.property },
                )
            },
            SettingsAnswer::Property { format, bytes_after } => if format == 8 && bytes_after == 0 {
                SettingsNext::Complete
            } else {
                SettingsNext::Incomplete
            },
        }
    }

    /// Begins a reading.
    pub fn begin(atoms: SettingsAtoms) -> (r: (SettingsRead, SettingsRequest))
        ensures
            r.0.atoms == atoms,
            r.1 == r.0.first_request(),
    {
        let read = SettingsRead { atoms, owner: 0 };
        if atoms.selection == 0 {
            (read, SettingsRequest::SelectionAtom)
        } else {
            (read, SettingsRequest::Owner { selection: atoms.selection })
        }
    }

    /// Takes an answer and says what follows. An atom is asked for once; without an
    /// owner there are no settings.
    pub fn read_settings(&mut self, request: SettingsRequest, answer: SettingsAnswer) -> (r:
        SettingsNext)
        requires
            Self::answers(request, answer),
        ensures
            *final(self) == old(self).noted(request, answer),
            r == old(self).following(request, answer),
            match answer {
                SettingsAnswer::Atom(atom) => if request == SettingsRequest::SelectionAtom {
                    &&& final(self).atoms.selection == atom
                    &&& final(self).atoms.property == old(self).atoms.property
                    &&& final(self).owner == old(self).owner
                    &&& r == if atom == 0 {
                        SettingsNext::Unknown
                    } else {
                        SettingsNext::Request(SettingsRequest::Owner { selection: atom })
                    }
                } else {
                    &&& final(self).atoms.selection == old(self).atoms.selection
                    &&& final(self).atoms.property == atom
                    &&& final(self).owner == old(self).owner
                    &&& r == SettingsNext::Request(
                        SettingsRequest::Property { owner: old(self).owner, property: atom },
                    )
                },
                SettingsAnswer::Owner(owner) => {
                    &&& final(self).atoms == old(self).atoms
                    &&& final(self).owner == owner
                    &&& r == if owner == 0 {
                        SettingsNext::Unknown
                    } else if old(self).atoms.property == 0 {
                        SettingsNext::Request(SettingsRequest::PropertyAtom)
                    } else {
                        SettingsNext::Request(
                            SettingsRequest::Property {
                                owner,
                                property: old(self).atoms.property,
                            },
                        )
                    }
                },
                SettingsAnswer::Property { format, bytes_after } => {
                    &&& *final(self) == *old(self)
                    &&& r == if format != 8 || bytes_after != 0 {
                        SettingsNext::Incomplete
                    } else {
                        SettingsNext::Complete
                    }
                },
            },
    {
        match answer {
            SettingsAnswer::Atom(atom) => match request {
                SettingsRequest::SelectionAtom => {
                    self.atoms = SettingsAtoms { selection: atom, property: self.atoms.property };
                    if atom == 0 {
                        SettingsNext::Unknown
                    } else {
                        SettingsNext::Request(SettingsRequest::Owner { selection: atom })
                    }
                },
                _ => {
                    self.atoms = SettingsAtoms { selection: self.atoms.selection, property: atom };
                    SettingsNext::Request(
                        SettingsRequest::Property { owner: self.owner, property: atom },
                    )
                },
            },
            SettingsAnswer::Owner(owner) => {
                self.owner = owner;
                if owner == 0 {
                    SettingsNext::Unknown
                } else if self.atoms.property == 0 {
                    SettingsNext::Request(SettingsRequest::PropertyAtom)
                } else {
                    SettingsNext::Request(
                        SettingsRequest::Property { owner, property: self.atoms.property },
                    )
                }
            },
            SettingsAnswer::Property { format, bytes_after } => {
                if ensure_complete_property(format, bytes_after).is_err() {
                    SettingsNext::Incomplete
                } else {
                    SettingsNext::Complete
                }
            },
        }
    }
}

/// A density that was read is used for a quarter of a second, and read again as soon as
/// that is over; one that was never read is always due.
pub proof fn law_density_is_read_each_quarter_second(density: X11Density, now_ms: u64)
    ensures
        density.last_check_ms is None ==> !density.fresh(now_ms),
        density.last_check_ms matches Some(checked) ==> (density.fresh(now_ms) <==> now_ms < checked
            + 250),
{
}

/// A density that could not be read counts as unknown; one that was read is used as it
/// is.
pub proof fn law_unread_density_is_unknown(density: X11Density)
    ensures
        density.scale_bits is None ==> density.scale() == 0,
        density.scale_bits matches Some(bits) ==> density.scale() == bits,
{
}

/// A reading begins with the owner of the settings where their atom is known, and with
/// that atom else. Each request has its own kind of answer.
pub proof fn law_readings_begin_with_what_is_missing(
    read: SettingsRead,
    request: SettingsRequest,
    answer: SettingsAnswer,
)
    ensures
        read.first_request() == SettingsRequest::SelectionAtom <==> read.atoms.selection == 0,
        read.atoms.selection != 0 ==> read.first_request() == (SettingsRequest::Owner {
            selection: read.atoms.selection,
        }),
        SettingsRead::answers(request, answer) <==> match answer {
            SettingsAnswer::Atom(_) => request == SettingsRequest::SelectionAtom || request
                == SettingsRequest::PropertyAtom,
            SettingsAnswer::Owner(_) => request is Owner,
            SettingsAnswer::Property { .. } => request is Property,
        },
{
}

/// Turning a display by a right angle exchanges its edges, so that its density is that
/// of an upright display with the edges exchanged; turning it over changes nothing.
pub proof fn law_density_of_turned_displays(
    upright: WaylandDisplay,
    turned: WaylandDisplay,
    over: WaylandDisplay,
)
    requires
        upright.transform == 0,
        turned.transform == 90 || turned.transform == 270,
        over.transform == 180,
        turned == (WaylandDisplay {
            width: upright.height,
            height: upright.width,
            transform: turned.transform,
            ..upright
        }),
        over == (WaylandDisplay { transform: over.transform, ..upright }),
    ensures
        density_of(turned) == density_of(upright),
        density_of(over) == density_of(upright),
{
}

/// A density is known exactly where there is a logical size, and refused where any edge
/// is missing. It is the number of pixels for so many units, but where both are the same
/// a factor above one takes their place.
pub proof fn law_density_is_pixels_per_unit(display: WaylandDisplay, units: i32, rows: i32)
    ensures
        density_of(display) == Some(Density::Unknown) <==> display.logical_size is None,
        display.logical_size == Some((units, rows)) ==> (density_of(display) is None <==> units <= 0
            || rows <= 0 || display.width <= 0 || display.height <= 0),
        display.logical_size == Some((units, rows)) && density_of(display) is Some
            && display.transform == 0 && display.width != units ==> density_of(display) == Some(
            Density::Known { pixels: display.width, units },
        ),
        display.logical_size == Some((units, rows)) && density_of(display) is Some
            && display.transform == 0 && display.width == units && display.scale_factor >= 1
            ==> density_of(display) == Some(
            Density::Known {
                pixels: if display.scale_factor == 1 {
                    units
                } else {
                    display.scale_factor
                },
                units: if display.scale_factor == 1 {
                    units
                } else {
                    1
                },
            },
        ),
{
}

/// An atom that was given is kept and never asked for again, and the property is asked
/// for from the owner that was named last, under the atom that is known.
pub proof fn law_known_atoms_are_not_asked_for(
    read: SettingsRead,
    request: SettingsRequest,
    answer: SettingsAnswer,
)
    requires
        SettingsRead::answers(request, answer),
    ensures
        ({
            let known = read.noted(request, answer);
            let next = read.following(request, answer);
            &&& next != SettingsNext::Request(SettingsRequest::SelectionAtom)
            &&& next == SettingsNext::Request(SettingsRequest::PropertyAtom)
                ==> known.atoms.property == 0 && known.owner != 0
            &&& next matches SettingsNext::Request(SettingsRequest::Property { owner, property })
                ==> owner == known.owner && property == known.atoms.property
            &&& next matches SettingsNext::Request(SettingsRequest::Owner { selection })
                ==> selection == known.atoms.selection && selection != 0
            &&& request != SettingsRequest::SelectionAtom ==> known.atoms.selection
                == read.atoms.selection
            &&& request != SettingsRequest::PropertyAtom ==> known.atoms.property
                == read.atoms.property
            &&& !(request is Owner) ==> known.owner == read.owner
            &&& request == SettingsRequest::SelectionAtom ==> answer == SettingsAnswer::Atom(
                known.atoms.selection,
            )
            &&& request == SettingsRequest::PropertyAtom ==> answer == SettingsAnswer::Atom(
                known.atoms.property,
            )
            &&& request is Owner ==> answer == SettingsAnswer::Owner(known.owner)
        }),
{
}

/// Settings are read exactly where the whole property came as bytes, and given up where
/// nobody owns them or their atom is not known.
pub proof fn law_when_settings_are_read(
    read: SettingsRead,
    request: SettingsRequest,
    answer: SettingsAnswer,
)
    requires
        SettingsRead::answers(request, answer),
    ensures
        read.following(request, answer) == SettingsNext::Complete <==> answer
            == (SettingsAnswer::Property { format: 8, bytes_after: 0 }),
        read.following(request, answer) == SettingsNext::Incomplete <==> answer is Property && answer
            != (SettingsAnswer::Property { format: 8, bytes_after: 0 }),
        read.following(request, answer) == SettingsNext::Unknown <==> answer
            == SettingsAnswer::Owner(0) || (answer == SettingsAnswer::Atom(0) && request
            == SettingsRequest::SelectionAtom),
{
}

} // verus!
