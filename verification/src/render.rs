//! What is shown to the player: the picture of the pet, its status line,
//! and the notices.
//!
//! Labels and notices are set in colour with the `colored` crate, which
//! decides for itself whether the terminal takes colour. So a text that
//! goes through it comes back in one of two forms, and the contracts here
//! allow both.

use colored::Colorize;
use vstd::prelude::*;
use vstd::string::StringExecFns;
use crate::pet::{Mood, Pet, Position};
use crate::text::{decimal, decimal_text};

verus! {

/// Happy, first frame: paw raised, mouth open.
pub const FRAME_HAPPY_1: &'static str = r#"
                    (\(\
                    ( ºoº)o
                    o_(")(")
"#;

/// Happy, second frame: wide eyes, both paws down.
pub const FRAME_HAPPY_2: &'static str = r#"
                    (\(\
                    (OvO)
                    o(")(")o
"#;

/// Sad, first frame: eyes shut, both paws down.
pub const FRAME_SAD_1: &'static str = r#"
                    (\(\
                    (-_-)
                    o(")(")o
"#;

/// Sad, second frame: eyes shut, paw raised.
pub const FRAME_SAD_2: &'static str = r#"
                    (\(\
                    ( -_-)o
                    o_(")(")
"#;

/// Hungry, first frame: eyes shut, paw raised.
pub const FRAME_HUNGRY_1: &'static str = r#"
                    (\(\
                    ( -_-)o
                    o_(")(")
"#;

/// Hungry, second frame: eyes open, paw raised.
pub const FRAME_HUNGRY_2: &'static str = r#"
                    (\(\
                    ( O_O)o
                    o(")(")
"#;

/// Dead: crossed eyes. The same in both frames.
pub const FRAME_DEAD: &'static str = r#"
                    (\(\
                    (x_x)
                    o(")(")o
"#;

/// Label before the mood in the status line.
pub const MOOD_LABEL: &'static str = "Estado:";

/// Label before the food in the status line.
pub const FOOD_LABEL: &'static str = "Comida:";

/// Label before the happiness in the status line.
pub const HAPPINESS_LABEL: &'static str = "Felicidad:";

/// Label before the weight in the status line.
pub const WEIGHT_LABEL: &'static str = "Peso:";

/// Unit behind the weight in the status line.
pub const WEIGHT_UNIT: &'static str = "kg";

/// Tag at the head of an error notice.
pub const ERROR_TAG: &'static str = "ERROR";

/// What an error notice says of a line that is no command.
pub const INVALID_OPTION: &'static str = "Opción inválida";

/// What an error notice says when no line could be read.
pub const READ_FAILURE: &'static str = "Fallo al leer el input";

/// What the player is told when the pet has died.
pub const DEATH_TEXT: &'static str = "Tu Ramagotchi ha muerto";

/// The menu and the prompt that ask for a command.
pub const MENU: &'static str = "\n1. Alimentar\n2. Jugar\n3. Salir\n\n¿Qué quieres hacer? ";

/// The control sequences that clear the screen and move the cursor home.
pub const CLEAR_SCREEN: &'static str = "\u{1b}[2J\u{1b}[1;1H";

/// The escape character, which starts a terminal's control sequences.
pub open spec fn escape() -> char {
    '\u{1b}'
}

/// The colour code of green text.
pub open spec fn green_code() -> Seq<char> {
    seq!['3', '2']
}

/// The colour code of red text.
pub open spec fn red_code() -> Seq<char> {
    seq!['3', '1']
}

/// A text set in a colour: the control sequence that starts the colour,
/// the text, and the control sequence that ends all colour and style.
pub open spec fn coloured(text: Seq<char>, code: Seq<char>) -> Seq<char> {
    seq![escape(), '['] + code + seq!['m'] + text + seq![escape(), '[', '0', 'm']
}

/// `shown` is `text`, either as it is or set in the colour.
pub open spec fn coloured_or_plain(shown: Seq<char>, text: Seq<char>, code: Seq<char>) -> bool {
    shown == text || shown == coloured(text, code)
}

/// The text holds no escape character.
pub open spec fn escape_free(text: Seq<char>) -> bool {
    forall|i: int| 0 <= i < text.len() ==> text[i] != escape()
}

/// Sets a text in green with `colored::Colorize::green` and writes the
/// result out as a string.
///
/// Trusted: the string is the text between the control sequences for
/// green and for the end of style, or, where `colored` finds colour
/// switched off (by a variable such as `NO_COLOR`, by its own override,
/// or because the output is no terminal), the text alone. Which of the
/// two comes is left open. `colored` repeats the colour after each
/// end-of-style sequence inside the text, so the text must hold no escape
/// character. `colored` looks at its switch more than once in a call;
/// the claim is for a program that does not flip the override meanwhile.
#[verifier::external_body]
fn green(text: &str) -> (shown: String)
    requires
        escape_free(text@),
    ensures
        coloured_or_plain(shown@, text@, green_code()),
{
    text.green().to_string()
}

/// Sets a text in red with `colored::Colorize::red` and writes the result
/// out as a string.
///
/// Trusted: as for `green`, with the control sequence for red.
#[verifier::external_body]
fn red(text: &str) -> (shown: String)
    requires
        escape_free(text@),
    ensures
        coloured_or_plain(shown@, text@, red_code()),
{
    text.red().to_string()
}

/// The name under which a mood is shown.
pub open spec fn mood_name(mood: Mood) -> Seq<char> {
    match mood {
        Mood::Happy => "Feliz"@,
        Mood::Sad => "Triste"@,
        Mood::Hungry => "Hambriento"@,
        Mood::Dead => "Muerto"@,
    }
}

/// The status line of a pet under the given labels: each label is
/// followed by its value, the weight also by its unit, and single spaces
/// stand between all of them.
pub open spec fn status_text(
    pet: Pet,
    mood_label: Seq<char>,
    food_label: Seq<char>,
    happiness_label: Seq<char>,
    weight_label: Seq<char>,
) -> Seq<char> {
    mood_label + seq![' '] + mood_name(pet.mood) + seq![' ']
        + food_label + seq![' '] + decimal_text(pet.food as nat) + seq![' ']
        + happiness_label + seq![' '] + decimal_text(pet.happiness as nat) + seq![' ']
        + weight_label + seq![' '] + decimal_text(pet.weight as nat) + seq![' '] + WEIGHT_UNIT@
}

impl Mood {
    /// The name under which the mood is shown.
    pub fn name(self) -> (name: &'static str)
        ensures
            name@ == mood_name(self),
    {
        match self {
            Mood::Happy => "Feliz",
            Mood::Sad => "Triste",
            Mood::Hungry => "Hambriento",
            Mood::Dead => "Muerto",
        }
    }
}

/// The picture for a frame and a mood, as characters.
pub open spec fn frame_art(position: Position, mood: Mood) -> Seq<char> {
    match (position, mood) {
        (_, Mood::Dead) => FRAME_DEAD@,
        (Position::Pos1, Mood::Happy) => FRAME_HAPPY_1@,
        (Position::Pos1, Mood::Sad) => FRAME_SAD_1@,
        (Position::Pos1, Mood::Hungry) => FRAME_HUNGRY_1@,
        (Position::Pos2, Mood::Happy) => FRAME_HAPPY_2@,
        (Position::Pos2, Mood::Sad) => FRAME_SAD_2@,
        (Position::Pos2, Mood::Hungry) => FRAME_HUNGRY_2@,
    }
}

impl Pet {
    /// The picture of the pet: one of the fixed drawings, chosen by the
    /// animation frame and the mood. A dead pet looks the same in both
    /// frames.
    pub fn frame(&self) -> (art: &'static str)
        ensures
            art@ == frame_art(self.position, self.mood),
    {
        match (self.position, self.mood) {
            (_, Mood::Dead) => FRAME_DEAD,
            (Position::Pos1, Mood::Happy) => FRAME_HAPPY_1,
            (Position::Pos1, Mood::Sad) => FRAME_SAD_1,
            (Position::Pos1, Mood::Hungry) => FRAME_HUNGRY_1,
            (Position::Pos2, Mood::Happy) => FRAME_HAPPY_2,
            (Position::Pos2, Mood::Sad) => FRAME_SAD_2,
            (Position::Pos2, Mood::Hungry) => FRAME_HUNGRY_2,
        }
    }

    /// The status line of the pet under labels of the caller's choice.
    pub fn status_with(
        &self,
        mood_label: &str,
        food_label: &str,
        happiness_label: &str,
        weight_label: &str,
    ) -> (line: String)
        ensures
            line@ == status_text(*self, mood_label@, food_label@, happiness_label@, weight_label@),
    {
        proof {
            reveal_strlit(" ");
        }
        let food = decimal(self.food);
        let happiness = decimal(self.happiness);
        let weight = decimal(self.weight);
        let mut line = String::new();
        line.append(mood_label);
        line.append(" ");
        line.append(self.mood.name());
        line.append(" ");
        line.append(food_label);
        line.append(" ");
        line.append(food.as_str());
        line.append(" ");
        line.append(happiness_label);
        line.append(" ");
        line.append(happiness.as_str());
        line.append(" ");
        line.append(weight_label);
        line.append(" ");
        line.append(weight.as_str());
        line.append(" ");
        line.append(WEIGHT_UNIT);
        assert(line@ =~= status_text(
            *self,
            mood_label@,
            food_label@,
            happiness_label@,
            weight_label@,
        )) by {
            assert(" "@ =~= seq![' ']);
        }
        line
    }

    /// The status line of the pet, with its labels set in green where the
    /// terminal takes colour.
    pub fn status_line(&self) -> (line: String)
        ensures
            exists|mood: Seq<char>, food: Seq<char>, happiness: Seq<char>, weight: Seq<char>|
                {
                    &&& coloured_or_plain(mood, MOOD_LABEL@, green_code())
                    &&& coloured_or_plain(food, FOOD_LABEL@, green_code())
                    &&& coloured_or_plain(happiness, HAPPINESS_LABEL@, green_code())
                    &&& coloured_or_plain(weight, WEIGHT_LABEL@, green_code())
                    &&& line@ == status_text(*self, mood, food, happiness, weight)
                },
    {
        proof {
            reveal_strlit("Estado:");
            reveal_strlit("Comida:");
            reveal_strlit("Felicidad:");
            reveal_strlit("Peso:");
        }
        let mood = green(MOOD_LABEL);
        let food = green(FOOD_LABEL);
        let happiness = green(HAPPINESS_LABEL);
        let weight = green(WEIGHT_LABEL);
        self.status_with(mood.as_str(), food.as_str(), happiness.as_str(), weight.as_str())
    }
}

/// A notice under a tag: the tag, a space, the message.
pub open spec fn tagged_text(tag: Seq<char>, message: Seq<char>) -> Seq<char> {
    tag + seq![' '] + message
}

/// Puts a tag before a message.
pub fn tagged(tag: &str, message: &str) -> (notice: String)
    ensures
        notice@ == tagged_text(tag@, message@),
{
    proof {
        reveal_strlit(" ");
    }
    let mut notice = String::new();
    notice.append(tag);
    notice.append(" ");
    notice.append(message);
    assert(notice@ =~= tagged_text(tag@, message@)) by {
        assert(" "@ =~= seq![' ']);
    }
    notice
}

/// An error notice: the message under `ERROR_TAG`, the tag in red where
/// the terminal takes colour.
pub fn error_notice(message: &str) -> (notice: String)
    ensures
        exists|tag: Seq<char>|
            coloured_or_plain(tag, ERROR_TAG@, red_code()) && notice@ == tagged_text(
                tag,
                message@,
            ),
{
    proof {
        reveal_strlit("ERROR");
    }
    let tag = red(ERROR_TAG);
    tagged(tag.as_str(), message)
}

/// The notice of the pet's death: the text, in red where the terminal
/// takes colour.
pub fn death_notice() -> (notice: String)
    ensures
        coloured_or_plain(notice@, DEATH_TEXT@, red_code()),
{
    proof {
        reveal_strlit("Tu Ramagotchi ha muerto");
    }
    red(DEATH_TEXT)
}

/// A dead pet is drawn the same in both frames.
pub proof fn lemma_dead_looks_the_same(a: Position, b: Position)
    ensures
        frame_art(a, Mood::Dead) == frame_art(b, Mood::Dead),
{
}

} // verus!
