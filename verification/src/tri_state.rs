//! Output pins that can also float.

use vstd::prelude::*;

verus! {

/// An output pin that can additionally be set to floating / high-impedance.
pub trait TriStatePin {
    type Error;

    /// Drives the pin low.
    fn set_low(&mut self) -> Result<(), Self::Error>;

    /// Drives the pin high.
    fn set_high(&mut self) -> Result<(), Self::Error>;

    /// Disconnects the driver, setting the pin floating.
    fn set_floating(&mut self) -> Result<(), Self::Error>;
}

/// A pin whose driven and floating modes are two different types, converted
/// into each other by consuming the pin.
pub trait IntoFloating: Sized {
    type FloatingPin;

    /// Consumes the driven pin, leaving it floating.
    fn into_floating(self) -> Self::FloatingPin;

    /// Consumes the floating pin, making it driven again.
    fn from_floating(floating: Self::FloatingPin) -> Self;
}

/// A tri-state adapter for pins whose modes are reflected as typestate.
pub enum Typestate<T> where T: IntoFloating {
    Output(T),
    Floating(T::FloatingPin),
    /// A temporary value swapped in while converting between modes, so that
    /// ownership of the pin can be taken without ever leaving the adapter in
    /// an invalid state. Never observed between operations.
    Uninit,
}

impl<T> Typestate<T> where T: IntoFloating {
    /// Converts a floating pin into a driven one; a pin already driven (or
    /// the transient placeholder) is left as it is.
    pub fn into_output(self) -> (r: Self)
        ensures
            self is Output ==> r == self,
            self is Uninit ==> r == self,
            self is Floating ==> r is Output,
    {
        match self {
            Self::Floating(floating) => Self::Output(T::from_floating(floating)),
            _ => self,
        }
    }

    /// Converts a driven pin into a floating one; a pin already floating (or
    /// the transient placeholder) is left as it is.
    pub fn into_floating(self) -> (r: Self)
        ensures
            self is Floating ==> r == self,
            self is Uninit ==> r == self,
            self is Output ==> r is Floating,
    {
        match self {
            Self::Output(output) => Self::Floating(T::into_floating(output)),
            _ => self,
        }
    }
}

} // verus!
