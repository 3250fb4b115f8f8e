use vstd::prelude::*;

verus! {

/// The top-level mode of the session; exactly one is active at a time.
#[derive(Clone, Copy, Debug, PartialEq, Eq, Structural)]
pub enum CurrentScreen {
    PickSerialPort,
    PickBaudRate,
    Main,
    Config1,
    Help,
}

/// Which part of the main screen receives the keys.
#[derive(Clone, Copy, Debug, PartialEq, Eq, Structural)]
pub enum MainScreenActiveRegion {
    Input,
    /// Choice of the line ending sent after each message. No key leads here:
    /// the region is disabled, and cycling away from it is not defined.
    InputEolChoice,
    OutputScrollBars,
}

impl MainScreenActiveRegion {
    /// The region that Tab moves the focus to.
    pub fn next(&self) -> (r: MainScreenActiveRegion)
        requires
            !(*self is InputEolChoice),
        ensures
            *self is Input ==> r is OutputScrollBars,
            *self is OutputScrollBars ==> r is Input,
    {
        match self {
            MainScreenActiveRegion::Input => MainScreenActiveRegion::OutputScrollBars,
            MainScreenActiveRegion::OutputScrollBars => MainScreenActiveRegion::Input,
            MainScreenActiveRegion::InputEolChoice => MainScreenActiveRegion::Input,
        }
    }

    /// The region that Shift-Tab moves the focus to.
    pub fn prev(&self) -> (r: MainScreenActiveRegion)
        requires
            !(*self is InputEolChoice),
        ensures
            *self is Input ==> r is OutputScrollBars,
            *self is OutputScrollBars ==> r is Input,
    {
        match self {
            MainScreenActiveRegion::Input => MainScreenActiveRegion::OutputScrollBars,
            MainScreenActiveRegion::OutputScrollBars => MainScreenActiveRegion::Input,
            MainScreenActiveRegion::InputEolChoice => MainScreenActiveRegion::Input,
        }
    }
}

} // verus!
