//! The options record of the menu: which metals go into the firework.

use vstd::prelude::*;

verus! {

/// A metal that can be added to the firework.
#[derive(Clone, Copy, Debug, PartialEq, Eq, Hash, Structural)]
pub enum Metal {
    Titanium,
    Manganese,
    Iron,
}

/// The name of a metal as the menu shows it.
pub open spec fn metal_name(metal: Metal) -> Seq<char> {
    match metal {
        Metal::Titanium => "Titanium"@,
        Metal::Manganese => "Manganese"@,
        Metal::Iron => "Iron"@,
    }
}

impl Metal {
    /// The name of the metal as the menu shows it.
    pub fn name(self) -> (text: &'static str)
        ensures
            text@ == metal_name(self),
    {
        match self {
            Metal::Titanium => "Titanium",
            Metal::Manganese => "Manganese",
            Metal::Iron => "Iron",
        }
    }
}

/// Three independent flags, one for each metal.
#[derive(Clone, Copy, Debug, PartialEq, Eq, Hash, Structural)]
pub struct FireWorkOptions {
    pub titanium: bool,
    pub manganese: bool,
    pub iron: bool,
}

impl FireWorkOptions {
    /// The flag that belongs to `metal`.
    pub open spec fn flag(self, metal: Metal) -> bool {
        match metal {
            Metal::Titanium => self.titanium,
            Metal::Manganese => self.manganese,
            Metal::Iron => self.iron,
        }
    }

    /// The record with the flag of `metal` flipped and the other two kept.
    pub open spec fn toggled(self, metal: Metal) -> FireWorkOptions {
        match metal {
            Metal::Titanium => FireWorkOptions { titanium: !self.titanium, ..self },
            Metal::Manganese => FireWorkOptions { manganese: !self.manganese, ..self },
            Metal::Iron => FireWorkOptions { iron: !self.iron, ..self },
        }
    }

    /// The record in which no metal is selected.
    pub open spec fn none_selected() -> FireWorkOptions {
        FireWorkOptions { titanium: false, manganese: false, iron: false }
    }

    /// Flips the flag of `metal`. The flags of the other two metals stay as
    /// they are.
    pub fn toggle(&mut self, metal: Metal)
        ensures
            final(self).flag(metal) == !old(self).flag(metal),
            forall|other: Metal| other != metal ==> final(self).flag(other) == old(self).flag(other),
            *final(self) == old(self).toggled(metal),
    {
        match metal {
            Metal::Titanium => {
                self.titanium = !self.titanium;
            },
            Metal::Manganese => {
                self.manganese = !self.manganese;
            },
            Metal::Iron => {
                self.iron = !self.iron;
            },
        }
    }
}

impl Default for FireWorkOptions {
    /// No metal is selected at the start.
    fn default() -> (options: FireWorkOptions)
        ensures
            options == FireWorkOptions::none_selected(),
    {
        FireWorkOptions { titanium: false, manganese: false, iron: false }
    }
}

/// Toggling one metal changes its flag and none of the other two.
pub proof fn lemma_toggle_is_local(options: FireWorkOptions, metal: Metal, other: Metal)
    ensures
        options.toggled(metal).flag(other) == (options.flag(other) != (other == metal)),
{
}

/// Toggling the same metal twice gives the record back.
pub proof fn lemma_toggle_twice(options: FireWorkOptions, metal: Metal)
    ensures
        options.toggled(metal).toggled(metal) == options,
{
}

} // verus!
