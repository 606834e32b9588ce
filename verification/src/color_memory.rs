//! A bounded memory of recently used colors, most recent first. The list
//! itself lives here; reading and writing the backing key-value storage,
//! and generating the seed palette, are the application's business.

use vstd::prelude::*;

use crate::notification::Rgb;

verus! {

/// Mathematical model of a [`ColorMemory`]: the storage key it persists
/// under, the remembered colors (most recent first), and the bound.
#[verifier::ext_equal]
pub struct ColorMemoryView {
    pub ls_key: Seq<char>,
    pub memory: Seq<Rgb>,
    pub max_size: nat,
}

/// What remembering one color does to the list: a color already present
/// leaves it untouched; a new color goes to the front, and the oldest
/// entry falls out if the bound would be exceeded.
pub open spec fn remember(memory: Seq<Rgb>, max_size: nat, color: Rgb) -> Seq<Rgb> {
    let inserted = if memory.contains(color) {
        memory
    } else {
        seq![color] + memory
    };
    if inserted.len() > max_size {
        inserted.drop_last()
    } else {
        inserted
    }
}

/// A bounded list of recently used colors, keyed for persistence.
#[derive(Debug)]
pub struct ColorMemory {
    ls_key: String,
    memory: Vec<Rgb>,
    max_size: usize,
}

impl View for ColorMemory {
    type V = ColorMemoryView;

    closed spec fn view(&self) -> ColorMemoryView {
        ColorMemoryView {
            ls_key: self.ls_key@,
            memory: self.memory@,
            max_size: self.max_size as nat,
        }
    }
}

impl ColorMemory {
    /// The memory never holds more colors than its bound.
    pub open spec fn wf(&self) -> bool {
        self@.memory.len() <= self@.max_size
    }

    /// A memory seeded from stored or generated colors; whatever goes
    /// beyond the bound is cut off.
    pub fn from_colors(ls_key: String, max_size: usize, colors: Vec<Rgb>) -> (r: Self)
        ensures
            r@.ls_key == ls_key@,
            r@.max_size == max_size as nat,
            r@.memory == if colors@.len() <= max_size as nat {
                colors@
            } else {
                colors@.take(max_size as int)
            },
            r.wf(),
    {
        let mut memory = colors;
        memory.truncate(max_size);
        ColorMemory { ls_key, memory, max_size }
    }

    /// An empty memory with the given bound.
    pub fn new(ls_key: String, max_size: usize) -> (r: Self)
        ensures
            r@.ls_key == ls_key@,
            r@.max_size == max_size as nat,
            r@.memory == Seq::<Rgb>::empty(),
            r.wf(),
    {
        ColorMemory { ls_key, memory: Vec::new(), max_size }
    }

    /// The key this memory persists under.
    pub fn ls_key(&self) -> (r: &str)
        ensures
            r@ == self@.ls_key,
    {
        self.ls_key.as_str()
    }

    /// The most colors this memory will hold.
    pub fn max_size(&self) -> (r: usize)
        ensures
            r as nat == self@.max_size,
    {
        self.max_size
    }

    /// How many colors are remembered.
    pub fn len(&self) -> (r: usize)
        ensures
            r as nat == self@.memory.len(),
    {
        self.memory.len()
    }

    /// The remembered colors, most recent first.
    pub fn colors(&self) -> (r: &Vec<Rgb>)
        ensures
            r@ == self@.memory,
    {
        &self.memory
    }

    /// The color at `index`, if the memory reaches that far.
    pub fn get(&self, index: usize) -> (r: Option<&Rgb>)
        ensures
            index < self@.memory.len() ==> r == Some(&self@.memory[index as int]),
            index >= self@.memory.len() ==> r is None,
    {
        if index < self.memory.len() {
            Some(&self.memory[index])
        } else {
            None
        }
    }

    /// Remembers one color as the most recent. The caller persists the new
    /// list afterwards; this only updates the memory itself.
    pub fn push(&mut self, color: Rgb)
        requires
            old(self).wf(),
        ensures
            final(self)@.ls_key == old(self)@.ls_key,
            final(self)@.max_size == old(self)@.max_size,
            final(self)@.memory == remember(old(self)@.memory, old(self)@.max_size, color),
            final(self).wf(),
    {
        if !contains_color(&self.memory, color) {
            self.memory.insert(0, color);
            proof {
                assert(self@.memory =~= seq![color] + old(self)@.memory);
            }
        }
        if self.memory.len() > self.max_size {
            let _evicted = self.memory.pop();
            proof {
                assert(self@.memory =~= remember(old(self)@.memory, old(self)@.max_size, color));
            }
        }
    }
}

/// Whether the list already holds this color.
fn contains_color(memory: &Vec<Rgb>, color: Rgb) -> (r: bool)
    ensures
        r == memory@.contains(color),
{
    let mut i: usize = 0;
    while i < memory.len()
        invariant
            i <= memory@.len(),
            forall|j: int| 0 <= j < i ==> memory@[j] != color,
        decreases memory@.len() - i,
    {
        if memory[i] == color {
            return true;
        }
        i = i + 1;
    }
    proof {
        assert(!memory@.contains(color));
    }
    false
}

} // verus!
