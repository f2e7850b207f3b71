use vstd::prelude::*;

verus! {

/// Identifier of an achievement.
#[derive(Clone, Copy, Debug, PartialEq, Eq, Hash, PartialOrd)]
pub struct FtAchievementId(pub u64);

impl FtAchievementId {
    pub fn new(value: u64) -> (r: FtAchievementId)
        ensures
            r.0 == value,
    {
        FtAchievementId(value)
    }

    pub fn value(&self) -> (r: &u64)
        ensures
            *r == self.0,
    {
        &self.0
    }
}

/// Name of an achievement.
#[derive(Clone, Debug, PartialEq, Eq, Hash, PartialOrd)]
pub struct FtAchievementName(pub String);

impl FtAchievementName {
    pub fn new(value: String) -> (r: FtAchievementName)
        ensures
            r.0 == value,
    {
        FtAchievementName(value)
    }

    pub fn value(&self) -> (r: &String)
        ensures
            *r == self.0,
    {
        &self.0
    }
}

/// What an achievement rewards.
#[derive(Clone, Debug, PartialEq, Eq, Hash, PartialOrd)]
pub struct FtAchievementDescription(pub String);

impl FtAchievementDescription {
    pub fn new(value: String) -> (r: FtAchievementDescription)
        ensures
            r.0 == value,
    {
        FtAchievementDescription(value)
    }

    pub fn value(&self) -> (r: &String)
        ensures
            *r == self.0,
    {
        &self.0
    }
}

/// Tier of an achievement.
#[derive(Clone, Debug, PartialEq, Eq, Hash, PartialOrd)]
pub struct FtAchievementTier(pub String);

impl FtAchievementTier {
    pub fn new(value: String) -> (r: FtAchievementTier)
        ensures
            r.0 == value,
    {
        FtAchievementTier(value)
    }

    pub fn value(&self) -> (r: &String)
        ensures
            *r == self.0,
    {
        &self.0
    }
}

/// Category of an achievement.
#[derive(Clone, Debug, PartialEq, Eq, Hash, PartialOrd)]
pub struct FtAchievementKind(pub String);

impl FtAchievementKind {
    pub fn new(value: String) -> (r: FtAchievementKind)
        ensures
            r.0 == value,
    {
        FtAchievementKind(value)
    }

    pub fn value(&self) -> (r: &String)
        ensures
            *r == self.0,
    {
        &self.0
    }
}

/// Address of an achievement's image.
#[derive(Clone, Debug, PartialEq, Eq, Hash, PartialOrd)]
pub struct FtAchievementImage(pub String);

impl FtAchievementImage {
    pub fn new(value: String) -> (r: FtAchievementImage)
        ensures
            r.0 == value,
    {
        FtAchievementImage(value)
    }

    pub fn value(&self) -> (r: &String)
        ensures
            *r == self.0,
    {
        &self.0
    }
}

/// How many users earned an achievement.
#[derive(Clone, Copy, Debug, PartialEq, Eq, Hash, PartialOrd)]
pub struct FtAchievementNbrOfSuccess(pub u64);

impl FtAchievementNbrOfSuccess {
    pub fn new(value: u64) -> (r: FtAchievementNbrOfSuccess)
        ensures
            r.0 == value,
    {
        FtAchievementNbrOfSuccess(value)
    }

    pub fn value(&self) -> (r: &u64)
        ensures
            *r == self.0,
    {
        &self.0
    }
}

/// Address of the list of an achievement's holders.
#[derive(Clone, Debug, PartialEq, Eq, Hash, PartialOrd)]
pub struct FtAchievementUsersUrl(pub String);

impl FtAchievementUsersUrl {
    pub fn new(value: String) -> (r: FtAchievementUsersUrl)
        ensures
            r.0 == value,
    {
        FtAchievementUsersUrl(value)
    }

    pub fn value(&self) -> (r: &String)
        ensures
            *r == self.0,
    {
        &self.0
    }
}

/// Identifier of an evaluation team.
#[derive(Clone, Copy, Debug, PartialEq, Eq, Hash, PartialOrd)]
pub struct FtScaleTeamId(pub u64);

impl FtScaleTeamId {
    pub fn new(value: u64) -> (r: FtScaleTeamId)
        ensures
            r.0 == value,
    {
        FtScaleTeamId(value)
    }

    pub fn value(&self) -> (r: &u64)
        ensures
            *r == self.0,
    {
        &self.0
    }
}

/// Identifier of an evaluation scale.
#[derive(Clone, Copy, Debug, PartialEq, Eq, Hash, PartialOrd)]
pub struct FtScaleId(pub u64);

impl FtScaleId {
    pub fn new(value: u64) -> (r: FtScaleId)
        ensures
            r.0 == value,
    {
        FtScaleId(value)
    }

    pub fn value(&self) -> (r: &u64)
        ensures
            *r == self.0,
    {
        &self.0
    }
}

/// An achievement record; the API may leave out any field.
#[derive(Debug, PartialEq, PartialOrd)]
pub struct FtAchievement {
    pub id: Option<FtAchievementId>,
    pub name: Option<FtAchievementName>,
    pub description: Option<FtAchievementDescription>,
    pub tier: Option<FtAchievementTier>,
    pub kind: Option<FtAchievementKind>,
    pub visible: Option<bool>,
    pub image: Option<FtAchievementImage>,
    pub nbr_of_success: Option<FtAchievementNbrOfSuccess>,
    pub users_url: Option<FtAchievementUsersUrl>,
}

/// The envelope in which the API reports the outcome of some calls.
#[derive(Debug, PartialEq, Eq, Clone)]
pub struct FtEnvelopeMessage {
    pub ok: bool,
    pub error: Option<String>,
    pub errors: Option<Vec<String>>,
    pub warnings: Option<Vec<String>>,
}

/// Request for one evaluation team.
#[derive(Debug)]
pub struct FtApiScaleTeamsIdRequest {
    pub id: FtScaleTeamId,
}

impl FtApiScaleTeamsIdRequest {
    pub fn new(id: FtScaleTeamId) -> (r: FtApiScaleTeamsIdRequest)
        ensures
            r.id == id,
    {
        FtApiScaleTeamsIdRequest { id }
    }
}

/// Request to move an evaluation team to another scale.
#[derive(Debug)]
pub struct FtApiScaleTeamsIdPatchRequest {
    pub id: FtScaleTeamId,
    pub scale_id: FtScaleId,
}

impl FtApiScaleTeamsIdPatchRequest {
    pub fn new(id: FtScaleTeamId, scale_id: FtScaleId) -> (r: FtApiScaleTeamsIdPatchRequest)
        ensures
            r.id == id,
            r.scale_id == scale_id,
    {
        FtApiScaleTeamsIdPatchRequest { id, scale_id }
    }
}

/// The (empty) body of a scale change.
pub struct FtApiScaleTeamsIdPatchBody {}

/// The (empty) answer to a scale change.
#[derive(Debug)]
pub struct FtApiScaleTeamsIdPatchResponse {}

} // verus!
