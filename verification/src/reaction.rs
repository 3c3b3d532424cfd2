//! The fixed reaction vocabulary: the emotion, motion and cry value sets of
//! the structured-output schema, the decoder's exact, case-sensitive mapping
//! from schema strings to these values, and the numeric codes the streaming
//! protocol assigns them.

use vstd::prelude::*;

verus! {

/// Character-sequence equality of two string slices.
pub fn str_eq(a: &str, b: &str) -> (r: bool)
    ensures
        r == (a@ == b@),
{
    let owned_a = a.to_owned();
    let owned_b = b.to_owned();
    owned_a.eq(&owned_b)
}

/// Emotion of one reaction.
#[derive(Clone, Copy, Debug, PartialEq, Eq, Structural)]
pub enum Emotion {
    Neutral,
    Happy,
    Sad,
    Angry,
    Fearful,
    Disgusted,
    Surprised,
}

/// Motion of one reaction.
#[derive(Clone, Copy, Debug, PartialEq, Eq, Structural)]
pub enum Motion {
    Neutral,
    Happy,
    No,
    Jump,
    Die,
    Run,
    Walk,
    Flying,
    Attack,
    Eating,
}

/// Cry of one reaction.
#[derive(Clone, Copy, Debug, PartialEq, Eq, Structural)]
pub enum Cry {
    Silent,
    Happy,
    Sad,
    Angry,
    Fearful,
    Disgusted,
    Surprised,
    Spoiled,
    Cry,
}

impl Emotion {
    /// The schema string of this value.
    pub open spec fn spec_name(self) -> Seq<char> {
        match self {
            Emotion::Neutral => "EMOTION_NEUTRAL"@,
            Emotion::Happy => "EMOTION_HAPPY"@,
            Emotion::Sad => "EMOTION_SAD"@,
            Emotion::Angry => "EMOTION_ANGRY"@,
            Emotion::Fearful => "EMOTION_FEARFUL"@,
            Emotion::Disgusted => "EMOTION_DISGUSTED"@,
            Emotion::Surprised => "EMOTION_SURPRISED"@,
        }
    }

    /// The value whose schema string is `s`, if any.
    pub open spec fn spec_from_name(s: Seq<char>) -> Option<Emotion> {
        if s == "EMOTION_NEUTRAL"@ {
            Some(Emotion::Neutral)
        } else if s == "EMOTION_HAPPY"@ {
            Some(Emotion::Happy)
        } else if s == "EMOTION_SAD"@ {
            Some(Emotion::Sad)
        } else if s == "EMOTION_ANGRY"@ {
            Some(Emotion::Angry)
        } else if s == "EMOTION_FEARFUL"@ {
            Some(Emotion::Fearful)
        } else if s == "EMOTION_DISGUSTED"@ {
            Some(Emotion::Disgusted)
        } else if s == "EMOTION_SURPRISED"@ {
            Some(Emotion::Surprised)
        } else {
            None
        }
    }

    /// Returns the schema string of this value.
    pub fn name(self) -> (r: &'static str)
        ensures
            r@ == self.spec_name(),
    {
        match self {
            Emotion::Neutral => "EMOTION_NEUTRAL",
            Emotion::Happy => "EMOTION_HAPPY",
            Emotion::Sad => "EMOTION_SAD",
            Emotion::Angry => "EMOTION_ANGRY",
            Emotion::Fearful => "EMOTION_FEARFUL",
            Emotion::Disgusted => "EMOTION_DISGUSTED",
            Emotion::Surprised => "EMOTION_SURPRISED",
        }
    }

    /// Exact, case-sensitive match of `s` against the schema strings.
    pub fn from_str_name(s: &str) -> (r: Option<Emotion>)
        ensures
            r == Emotion::spec_from_name(s@),
    {
        if str_eq(s, "EMOTION_NEUTRAL") {
            Some(Emotion::Neutral)
        } else if str_eq(s, "EMOTION_HAPPY") {
            Some(Emotion::Happy)
        } else if str_eq(s, "EMOTION_SAD") {
            Some(Emotion::Sad)
        } else if str_eq(s, "EMOTION_ANGRY") {
            Some(Emotion::Angry)
        } else if str_eq(s, "EMOTION_FEARFUL") {
            Some(Emotion::Fearful)
        } else if str_eq(s, "EMOTION_DISGUSTED") {
            Some(Emotion::Disgusted)
        } else if str_eq(s, "EMOTION_SURPRISED") {
            Some(Emotion::Surprised)
        } else {
            None
        }
    }

    /// The streaming protocol's numeric code of this value.
    pub open spec fn spec_code(self) -> i32 {
        match self {
            Emotion::Neutral => 0,
            Emotion::Happy => 1,
            Emotion::Sad => 2,
            Emotion::Angry => 3,
            Emotion::Fearful => 4,
            Emotion::Disgusted => 5,
            Emotion::Surprised => 6,
        }
    }

    /// Returns the streaming protocol's numeric code of this value.
    pub fn code(self) -> (r: i32)
        ensures
            r == self.spec_code(),
    {
        match self {
            Emotion::Neutral => 0,
            Emotion::Happy => 1,
            Emotion::Sad => 2,
            Emotion::Angry => 3,
            Emotion::Fearful => 4,
            Emotion::Disgusted => 5,
            Emotion::Surprised => 6,
        }
    }
}

impl Motion {
    /// The schema string of this value.
    pub open spec fn spec_name(self) -> Seq<char> {
        match self {
            Motion::Neutral => "MOTION_NEUTRAL"@,
            Motion::Happy => "MOTION_HAPPY"@,
            Motion::No => "MOTION_NO"@,
            Motion::Jump => "MOTION_JUMP"@,
            Motion::Die => "MOTION_DIE"@,
            Motion::Run => "MOTION_RUN"@,
            Motion::Walk => "MOTION_WALK"@,
            Motion::Flying => "MOTION_FLYING"@,
            Motion::Attack => "MOTION_ATTACK"@,
            Motion::Eating => "MOTION_EATING"@,
        }
    }

    /// The value whose schema string is `s`, if any.
    pub open spec fn spec_from_name(s: Seq<char>) -> Option<Motion> {
        if s == "MOTION_NEUTRAL"@ {
            Some(Motion::Neutral)
        } else if s == "MOTION_HAPPY"@ {
            Some(Motion::Happy)
        } else if s == "MOTION_NO"@ {
            Some(Motion::No)
        } else if s == "MOTION_JUMP"@ {
            Some(Motion::Jump)
        } else if s == "MOTION_DIE"@ {
            Some(Motion::Die)
        } else if s == "MOTION_RUN"@ {
            Some(Motion::Run)
        } else if s == "MOTION_WALK"@ {
            Some(Motion::Walk)
        } else if s == "MOTION_FLYING"@ {
            Some(Motion::Flying)
        } else if s == "MOTION_ATTACK"@ {
            Some(Motion::Attack)
        } else if s == "MOTION_EATING"@ {
            Some(Motion::Eating)
        } else {
            None
        }
    }

    /// Returns the schema string of this value.
    pub fn name(self) -> (r: &'static str)
        ensures
            r@ == self.spec_name(),
    {
        match self {
            Motion::Neutral => "MOTION_NEUTRAL",
            Motion::Happy => "MOTION_HAPPY",
            Motion::No => "MOTION_NO",
            Motion::Jump => "MOTION_JUMP",
            Motion::Die => "MOTION_DIE",
            Motion::Run => "MOTION_RUN",
            Motion::Walk => "MOTION_WALK",
            Motion::Flying => "MOTION_FLYING",
            Motion::Attack => "MOTION_ATTACK",
            Motion::Eating => "MOTION_EATING",
        }
    }

    /// Exact, case-sensitive match of `s` against the schema strings.
    pub fn from_str_name(s: &str) -> (r: Option<Motion>)
        ensures
            r == Motion::spec_from_name(s@),
    {
        if str_eq(s, "MOTION_NEUTRAL") {
            Some(Motion::Neutral)
        } else if str_eq(s, "MOTION_HAPPY") {
            Some(Motion::Happy)
        } else if str_eq(s, "MOTION_NO") {
            Some(Motion::No)
        } else if str_eq(s, "MOTION_JUMP") {
            Some(Motion::Jump)
        } else if str_eq(s, "MOTION_DIE") {
            Some(Motion::Die)
        } else if str_eq(s, "MOTION_RUN") {
            Some(Motion::Run)
        } else if str_eq(s, "MOTION_WALK") {
            Some(Motion::Walk)
        } else if str_eq(s, "MOTION_FLYING") {
            Some(Motion::Flying)
        } else if str_eq(s, "MOTION_ATTACK") {
            Some(Motion::Attack)
        } else if str_eq(s, "MOTION_EATING") {
            Some(Motion::Eating)
        } else {
            None
        }
    }

    /// The streaming protocol's numeric code of this value.
    pub open spec fn spec_code(self) -> i32 {
        match self {
            Motion::Neutral => 0,
            Motion::Happy => 1,
            Motion::No => 2,
            Motion::Jump => 3,
            Motion::Die => 4,
            Motion::Run => 5,
            Motion::Walk => 6,
            Motion::Flying => 7,
            Motion::Attack => 8,
            Motion::Eating => 9,
        }
    }

    /// Returns the streaming protocol's numeric code of this value.
    pub fn code(self) -> (r: i32)
        ensures
            r == self.spec_code(),
    {
        match self {
            Motion::Neutral => 0,
            Motion::Happy => 1,
            Motion::No => 2,
            Motion::Jump => 3,
            Motion::Die => 4,
            Motion::Run => 5,
            Motion::Walk => 6,
            Motion::Flying => 7,
            Motion::Attack => 8,
            Motion::Eating => 9,
        }
    }
}

impl Cry {
    /// The schema string of this value.
    pub open spec fn spec_name(self) -> Seq<char> {
        match self {
            Cry::Silent => "CRY_NONE"@,
            Cry::Happy => "CRY_HAPPY"@,
            Cry::Sad => "CRY_SAD"@,
            Cry::Angry => "CRY_ANGRY"@,
            Cry::Fearful => "CRY_FEARFUL"@,
            Cry::Disgusted => "CRY_DISGUSTED"@,
            Cry::Surprised => "CRY_SURPRISED"@,
            Cry::Spoiled => "CRY_SPOILED"@,
            Cry::Cry => "CRY_CRY"@,
        }
    }

    /// The value whose schema string is `s`, if any.
    pub open spec fn spec_from_name(s: Seq<char>) -> Option<Cry> {
        if s == "CRY_NONE"@ {
            Some(Cry::Silent)
        } else if s == "CRY_HAPPY"@ {
            Some(Cry::Happy)
        } else if s == "CRY_SAD"@ {
            Some(Cry::Sad)
        } else if s == "CRY_ANGRY"@ {
            Some(Cry::Angry)
        } else if s == "CRY_FEARFUL"@ {
            Some(Cry::Fearful)
        } else if s == "CRY_DISGUSTED"@ {
            Some(Cry::Disgusted)
        } else if s == "CRY_SURPRISED"@ {
            Some(Cry::Surprised)
        } else if s == "CRY_SPOILED"@ {
            Some(Cry::Spoiled)
        } else if s == "CRY_CRY"@ {
            Some(Cry::Cry)
        } else {
            None
        }
    }

    /// Returns the schema string of this value.
    pub fn name(self) -> (r: &'static str)
        ensures
            r@ == self.spec_name(),
    {
        match self {
            Cry::Silent => "CRY_NONE",
            Cry::Happy => "CRY_HAPPY",
            Cry::Sad => "CRY_SAD",
            Cry::Angry => "CRY_ANGRY",
            Cry::Fearful => "CRY_FEARFUL",
            Cry::Disgusted => "CRY_DISGUSTED",
            Cry::Surprised => "CRY_SURPRISED",
            Cry::Spoiled => "CRY_SPOILED",
            Cry::Cry => "CRY_CRY",
        }
    }

    /// Exact, case-sensitive match of `s` against the schema strings.
    pub fn from_str_name(s: &str) -> (r: Option<Cry>)
        ensures
            r == Cry::spec_from_name(s@),
    {
        if str_eq(s, "CRY_NONE") {
            Some(Cry::Silent)
        } else if str_eq(s, "CRY_HAPPY") {
            Some(Cry::Happy)
        } else if str_eq(s, "CRY_SAD") {
            Some(Cry::Sad)
        } else if str_eq(s, "CRY_ANGRY") {
            Some(Cry::Angry)
        } else if str_eq(s, "CRY_FEARFUL") {
            Some(Cry::Fearful)
        } else if str_eq(s, "CRY_DISGUSTED") {
            Some(Cry::Disgusted)
        } else if str_eq(s, "CRY_SURPRISED") {
            Some(Cry::Surprised)
        } else if str_eq(s, "CRY_SPOILED") {
            Some(Cry::Spoiled)
        } else if str_eq(s, "CRY_CRY") {
            Some(Cry::Cry)
        } else {
            None
        }
    }

    /// The streaming protocol's numeric code of this value.
    pub open spec fn spec_code(self) -> i32 {
        match self {
            Cry::Silent => 0,
            Cry::Happy => 1,
            Cry::Sad => 2,
            Cry::Angry => 3,
            Cry::Fearful => 4,
            Cry::Disgusted => 5,
            Cry::Surprised => 6,
            Cry::Spoiled => 7,
            Cry::Cry => 8,
        }
    }

    /// Returns the streaming protocol's numeric code of this value.
    pub fn code(self) -> (r: i32)
        ensures
            r == self.spec_code(),
    {
        match self {
            Cry::Silent => 0,
            Cry::Happy => 1,
            Cry::Sad => 2,
            Cry::Angry => 3,
            Cry::Fearful => 4,
            Cry::Disgusted => 5,
            Cry::Surprised => 6,
            Cry::Spoiled => 7,
            Cry::Cry => 8,
        }
    }
}

/// One decoded reaction: an emotion, motion and cry drawn from the fixed
/// vocabulary.
#[derive(Clone, Copy, Debug, PartialEq, Eq, Structural)]
pub struct Reaction {
    pub emotion: Emotion,
    pub motion: Motion,
    pub cry: Cry,
}

/// The name mapping is a bijection onto the schema strings: every vocabulary
/// value decodes back from its own schema string, and a string decodes to a
/// value only if it is that value's schema string.
pub proof fn lemma_names_decode_exactly()
    ensures
        forall|e: Emotion| #[trigger] Emotion::spec_from_name(e.spec_name()) == Some(e),
        forall|m: Motion| #[trigger] Motion::spec_from_name(m.spec_name()) == Some(m),
        forall|c: Cry| #[trigger] Cry::spec_from_name(c.spec_name()) == Some(c),
        forall|s: Seq<char>|
            #[trigger] Emotion::spec_from_name(s) is Some
                ==> s == Emotion::spec_from_name(s)->Some_0.spec_name(),
        forall|s: Seq<char>|
            #[trigger] Motion::spec_from_name(s) is Some
                ==> s == Motion::spec_from_name(s)->Some_0.spec_name(),
        forall|s: Seq<char>|
            #[trigger] Cry::spec_from_name(s) is Some
                ==> s == Cry::spec_from_name(s)->Some_0.spec_name(),
{
    reveal_strlit("EMOTION_NEUTRAL");
    reveal_strlit("EMOTION_HAPPY");
    reveal_strlit("EMOTION_SAD");
    reveal_strlit("EMOTION_ANGRY");
    reveal_strlit("EMOTION_FEARFUL");
    reveal_strlit("EMOTION_DISGUSTED");
    reveal_strlit("EMOTION_SURPRISED");
    reveal_strlit("MOTION_NEUTRAL");
    reveal_strlit("MOTION_HAPPY");
    reveal_strlit("MOTION_NO");
    reveal_strlit("MOTION_JUMP");
    reveal_strlit("MOTION_DIE");
    reveal_strlit("MOTION_RUN");
    reveal_strlit("MOTION_WALK");
    reveal_strlit("MOTION_FLYING");
    reveal_strlit("MOTION_ATTACK");
    reveal_strlit("MOTION_EATING");
    reveal_strlit("CRY_NONE");
    reveal_strlit("CRY_HAPPY");
    reveal_strlit("CRY_SAD");
    reveal_strlit("CRY_ANGRY");
    reveal_strlit("CRY_FEARFUL");
    reveal_strlit("CRY_DISGUSTED");
    reveal_strlit("CRY_SURPRISED");
    reveal_strlit("CRY_SPOILED");
    reveal_strlit("CRY_CRY");
    assert("EMOTION_NEUTRAL"@.len() == 15);
    assert("EMOTION_HAPPY"@.len() == 13);
    assert("EMOTION_SAD"@.len() == 11);
    assert("EMOTION_ANGRY"@.len() == 13);
    assert("EMOTION_FEARFUL"@.len() == 15);
    assert("EMOTION_DISGUSTED"@.len() == 17);
    assert("EMOTION_SURPRISED"@.len() == 17);
    assert("MOTION_NEUTRAL"@.len() == 14);
    assert("MOTION_HAPPY"@.len() == 12);
    assert("MOTION_NO"@.len() == 9);
    assert("MOTION_JUMP"@.len() == 11);
    assert("MOTION_DIE"@.len() == 10);
    assert("MOTION_RUN"@.len() == 10);
    assert("MOTION_WALK"@.len() == 11);
    assert("MOTION_FLYING"@.len() == 13);
    assert("MOTION_ATTACK"@.len() == 13);
    assert("MOTION_EATING"@.len() == 13);
    assert("CRY_NONE"@.len() == 8);
    assert("CRY_HAPPY"@.len() == 9);
    assert("CRY_SAD"@.len() == 7);
    assert("CRY_ANGRY"@.len() == 9);
    assert("CRY_FEARFUL"@.len() == 11);
    assert("CRY_DISGUSTED"@.len() == 13);
    assert("CRY_SURPRISED"@.len() == 13);
    assert("CRY_SPOILED"@.len() == 11);
    assert("CRY_CRY"@.len() == 7);
    assert("EMOTION_ANGRY"@ != "EMOTION_HAPPY"@) by {
        assert("EMOTION_ANGRY"@[8] == 'A');
        assert("EMOTION_HAPPY"@[8] == 'H');
    }
    assert("EMOTION_FEARFUL"@ != "EMOTION_NEUTRAL"@) by {
        assert("EMOTION_FEARFUL"@[8] == 'F');
        assert("EMOTION_NEUTRAL"@[8] == 'N');
    }
    assert("EMOTION_SURPRISED"@ != "EMOTION_DISGUSTED"@) by {
        assert("EMOTION_SURPRISED"@[8] == 'S');
        assert("EMOTION_DISGUSTED"@[8] == 'D');
    }
    assert("MOTION_RUN"@ != "MOTION_DIE"@) by {
        assert("MOTION_RUN"@[7] == 'R');
        assert("MOTION_DIE"@[7] == 'D');
    }
    assert("MOTION_WALK"@ != "MOTION_JUMP"@) by {
        assert("MOTION_WALK"@[7] == 'W');
        assert("MOTION_JUMP"@[7] == 'J');
    }
    assert("MOTION_ATTACK"@ != "MOTION_FLYING"@) by {
        assert("MOTION_ATTACK"@[7] == 'A');
        assert("MOTION_FLYING"@[7] == 'F');
    }
    assert("MOTION_EATING"@ != "MOTION_FLYING"@) by {
        assert("MOTION_EATING"@[7] == 'E');
        assert("MOTION_FLYING"@[7] == 'F');
    }
    assert("MOTION_EATING"@ != "MOTION_ATTACK"@) by {
        assert("MOTION_EATING"@[7] == 'E');
        assert("MOTION_ATTACK"@[7] == 'A');
    }
    assert("CRY_ANGRY"@ != "CRY_HAPPY"@) by {
        assert("CRY_ANGRY"@[4] == 'A');
        assert("CRY_HAPPY"@[4] == 'H');
    }
    assert("CRY_SURPRISED"@ != "CRY_DISGUSTED"@) by {
        assert("CRY_SURPRISED"@[4] == 'S');
        assert("CRY_DISGUSTED"@[4] == 'D');
    }
    assert("CRY_SPOILED"@ != "CRY_FEARFUL"@) by {
        assert("CRY_SPOILED"@[4] == 'S');
        assert("CRY_FEARFUL"@[4] == 'F');
    }
    assert("CRY_CRY"@ != "CRY_SAD"@) by {
        assert("CRY_CRY"@[4] == 'C');
        assert("CRY_SAD"@[4] == 'S');
    }
    assert forall|e: Emotion| #[trigger] Emotion::spec_from_name(e.spec_name()) == Some(e) by {
        match e {
            Emotion::Neutral => {},
            Emotion::Happy => {},
            Emotion::Sad => {},
            Emotion::Angry => {},
            Emotion::Fearful => {},
            Emotion::Disgusted => {},
            Emotion::Surprised => {},
        }
    }
    assert forall|m: Motion| #[trigger] Motion::spec_from_name(m.spec_name()) == Some(m) by {
        match m {
            Motion::Neutral => {},
            Motion::Happy => {},
            Motion::No => {},
            Motion::Jump => {},
            Motion::Die => {},
            Motion::Run => {},
            Motion::Walk => {},
            Motion::Flying => {},
            Motion::Attack => {},
            Motion::Eating => {},
        }
    }
    assert forall|c: Cry| #[trigger] Cry::spec_from_name(c.spec_name()) == Some(c) by {
        match c {
            Cry::Silent => {},
            Cry::Happy => {},
            Cry::Sad => {},
            Cry::Angry => {},
            Cry::Fearful => {},
            Cry::Disgusted => {},
            Cry::Surprised => {},
            Cry::Spoiled => {},
            Cry::Cry => {},
        }
    }
}

} // verus!
