pub mod repeat;
pub mod typing;

use crate::config::{RgbColor, TukaiLayout, TukaiLayoutColorTypeEnum};
use vstd::prelude::*;

verus! {

/// One keyboard hint shown at the bottom of a screen.
pub struct Instruction {
    // Instruction title text (description)
    title: String,
    // Instruction shortcut text
    shortcut: String,
    // Layout color
    color_type: TukaiLayoutColorTypeEnum,
}

impl Instruction {
    pub closed spec fn spec_title(&self) -> Seq<char> {
        self.title@
    }

    pub closed spec fn spec_shortcut(&self) -> Seq<char> {
        self.shortcut@
    }

    pub closed spec fn spec_color_type(&self) -> TukaiLayoutColorTypeEnum {
        self.color_type
    }

    pub fn new(title: &str, shortcut: &str, color_type: TukaiLayoutColorTypeEnum) -> (r: Self)
        ensures
            r.spec_title() == title@,
            r.spec_shortcut() == shortcut@,
            r.spec_color_type() == color_type,
    {
        Self { title: title.to_owned(), shortcut: shortcut.to_owned(), color_type }
    }

    pub fn get_title(&self) -> (r: &String)
        ensures
            r@ == self.spec_title(),
    {
        &self.title
    }

    pub fn get_shortcut(&self) -> (r: &String)
        ensures
            r@ == self.spec_shortcut(),
    {
        &self.shortcut
    }

    pub fn get_color_type(&self) -> (r: TukaiLayoutColorTypeEnum)
        ensures
            r == self.spec_color_type(),
    {
        self.color_type
    }
}

/// The ordered list of keyboard hints for one screen, with the color the
/// active layout gives them.
pub struct InstructionWidget {
    primary_color: RgbColor,
    instructions: Vec<Instruction>,
}

impl InstructionWidget {
    pub closed spec fn spec_primary_color(&self) -> RgbColor {
        self.primary_color
    }

    pub closed spec fn spec_instructions(&self) -> Seq<Instruction> {
        self.instructions@
    }

    pub fn new(layout: &TukaiLayout) -> (r: Self)
        ensures
            r.spec_primary_color() == TukaiLayout::spec_layout_colors(
                layout.spec_active_layout_name(),
            ).spec_primary(),
            r.spec_instructions().len() == 0,
    {
        Self { primary_color: layout.get_layout_colors().get_primary(), instructions: Vec::new() }
    }

    /// Every hint is shown in the layout's primary color, whatever role it
    /// names.
    pub fn get_instruction_color(&self, color_type: &TukaiLayoutColorTypeEnum) -> (r: RgbColor)
        ensures
            r == self.spec_primary_color(),
    {
        match color_type {
            _ => self.primary_color,
        }
    }

    pub fn add_instruction(&mut self, instruction: Instruction)
        ensures
            final(self).spec_instructions() == old(self).spec_instructions().push(instruction),
            final(self).spec_primary_color() == old(self).spec_primary_color(),
    {
        self.instructions.push(instruction);
    }

    pub fn get_instructions(&self) -> (r: &Vec<Instruction>)
        ensures
            r@ == self.spec_instructions(),
    {
        &self.instructions
    }
}

} // verus!
