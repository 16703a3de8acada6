//! The game-connect plugin's request and response types.

use vstd::prelude::*;
#[allow(unused_imports)]
use crate::codec::{BridgeDto, ObjBuilder, ObjReader, accepts_of, decode_seq, decode_strs,
    encode_of, encode_seq, encode_strs, lemma_accepts_of, lemma_encode_of,
    lemma_encode_of_accepted, lemma_seq_encode_accepted, lemma_strs_encode_accepted, opt_field,
    req_field, spec_accepts_seq, spec_accepts_strs, spec_encode_seq, spec_encode_strs};
#[allow(unused_imports)]
use crate::value::{Value, ValueView, field_views, lemma_field_views, str_eq};

verus! {

/// The game-connect plugin: leaderboards and achievements.
pub struct GameConnect;

/// The leaderboard to display.
#[derive(Clone, Debug, PartialEq)]
pub struct ShowLeaderboardOptions {
    pub leaderboard_id: String,
}
/// A score to submit to a leaderboard.
#[derive(Clone, Debug, PartialEq)]
pub struct SubmitScoreOptions {
    pub leaderboard_id: String,
    pub total_score_amount: i32,
}
/// The achievement to unlock.
#[derive(Clone, Debug, PartialEq)]
pub struct UnlockAchievementOptions {
    pub achievement_id: String,
}
/// An achievement and the points to add to its progress.
#[derive(Clone, Debug, PartialEq)]
pub struct IncrementAchievementOptions {
    pub achievement_id: String,
    pub points_to_increment: i32,
}
/// The signed-in player.
#[derive(Clone, Debug, PartialEq)]
pub struct User {
    pub player_name: String,
    pub player_id: String,
}
impl BridgeDto for ShowLeaderboardOptions {
    open spec fn spec_encode(self) -> ValueView {
        let fs = Seq::<(Seq<char>, ValueView)>::empty();
        let fs = fs.push(("leaderboardID"@, ValueView::Str(self.leaderboard_id@)));
        ValueView::Obj(fs)
    }

    open spec fn spec_accepts(m: ValueView) -> bool {
        &&& m matches ValueView::Obj(fs)
        &&& {
            match req_field(fs, 0, "leaderboardID"@) {
                Some((v0, i0)) => v0 is Str && {
                    i0 == fs.len()
                },
                None => false,
            }
        }
    }

    open spec fn spec_typename() -> Seq<char> {
        "ShowLeaderboardOptions"@
    }

    proof fn lemma_encode_accepted(&self) {
    }

    fn typename() -> (r: &'static str) {
        "ShowLeaderboardOptions"
    }

    fn to_bridge(&self) -> (r: Value) {
        let mut b = ObjBuilder::new();
        b.put("leaderboardID", Value::Str(self.leaderboard_id.clone()));
        proof {
            assert(self.spec_encode() == ValueView::Obj(b@));
        }
        b.finish()
    }

    fn from_bridge(v: &Value) -> (r: Option<Self>) {
        let mut rd = match ObjReader::start(v) {
            Some(rd) => rd,
            None => {
                return None;
            },
        };
        let f_leaderboard_id: String = match rd.req("leaderboardID") {
            Some(vv) => match vv {
                Value::Str(s) => s.clone(),
                _ => {
                    return None;
                },
            },
            None => {
                return None;
            },
        };
        if !rd.done() {
            return None;
        }
        let x = ShowLeaderboardOptions { leaderboard_id: f_leaderboard_id };
        proof {
            assert(x.spec_encode() == v@);
            x.lemma_encode_accepted();
        }
        Some(x)
    }
}
impl BridgeDto for SubmitScoreOptions {
    open spec fn spec_encode(self) -> ValueView {
        let fs = Seq::<(Seq<char>, ValueView)>::empty();
        let fs = fs.push(("leaderboardID"@, ValueView::Str(self.leaderboard_id@)));
        let fs = fs.push(("totalScoreAmount"@, ValueView::Int(self.total_score_amount as int)));
        ValueView::Obj(fs)
    }

    open spec fn spec_accepts(m: ValueView) -> bool {
        &&& m matches ValueView::Obj(fs)
        &&& {
            match req_field(fs, 0, "leaderboardID"@) {
                Some((v0, i0)) => v0 is Str && {
                    match req_field(fs, i0, "totalScoreAmount"@) {
                        Some((v1, i1)) => (v1 matches ValueView::Int(n) && i32::MIN as int <= n <= i32::MAX as int) && {
                            i1 == fs.len()
                        },
                        None => false,
                    }
                },
                None => false,
            }
        }
    }

    open spec fn spec_typename() -> Seq<char> {
        "SubmitScoreOptions"@
    }

    proof fn lemma_encode_accepted(&self) {
    }

    fn typename() -> (r: &'static str) {
        "SubmitScoreOptions"
    }

    fn to_bridge(&self) -> (r: Value) {
        let mut b = ObjBuilder::new();
        b.put("leaderboardID", Value::Str(self.leaderboard_id.clone()));
        b.put("totalScoreAmount", Value::Int(self.total_score_amount as i64));
        proof {
            assert(self.spec_encode() == ValueView::Obj(b@));
        }
        b.finish()
    }

    fn from_bridge(v: &Value) -> (r: Option<Self>) {
        let mut rd = match ObjReader::start(v) {
            Some(rd) => rd,
            None => {
                return None;
            },
        };
        let f_leaderboard_id: String = match rd.req("leaderboardID") {
            Some(vv) => match vv {
                Value::Str(s) => s.clone(),
                _ => {
                    return None;
                },
            },
            None => {
                return None;
            },
        };
        let f_total_score_amount: i32 = match rd.req("totalScoreAmount") {
            Some(vv) => match vv {
                Value::Int(n) => {
                    if *n < i32::MIN as i64 || *n > i32::MAX as i64 {
                        return None;
                    }
                    *n as i32
                },
                _ => {
                    return None;
                },
            },
            None => {
                return None;
            },
        };
        if !rd.done() {
            return None;
        }
        let x = SubmitScoreOptions { leaderboard_id: f_leaderboard_id, total_score_amount: f_total_score_amount };
        proof {
            assert(x.spec_encode() == v@);
            x.lemma_encode_accepted();
        }
        Some(x)
    }
}
impl BridgeDto for UnlockAchievementOptions {
    open spec fn spec_encode(self) -> ValueView {
        let fs = Seq::<(Seq<char>, ValueView)>::empty();
        let fs = fs.push(("achievementID"@, ValueView::Str(self.achievement_id@)));
        ValueView::Obj(fs)
    }

    open spec fn spec_accepts(m: ValueView) -> bool {
        &&& m matches ValueView::Obj(fs)
        &&& {
            match req_field(fs, 0, "achievementID"@) {
                Some((v0, i0)) => v0 is Str && {
                    i0 == fs.len()
                },
                None => false,
            }
        }
    }

    open spec fn spec_typename() -> Seq<char> {
        "UnlockAchievementOptions"@
    }

    proof fn lemma_encode_accepted(&self) {
    }

    fn typename() -> (r: &'static str) {
        "UnlockAchievementOptions"
    }

    fn to_bridge(&self) -> (r: Value) {
        let mut b = ObjBuilder::new();
        b.put("achievementID", Value::Str(self.achievement_id.clone()));
        proof {
            assert(self.spec_encode() == ValueView::Obj(b@));
        }
        b.finish()
    }

    fn from_bridge(v: &Value) -> (r: Option<Self>) {
        let mut rd = match ObjReader::start(v) {
            Some(rd) => rd,
            None => {
                return None;
            },
        };
        let f_achievement_id: String = match rd.req("achievementID") {
            Some(vv) => match vv {
                Value::Str(s) => s.clone(),
                _ => {
                    return None;
                },
            },
            None => {
                return None;
            },
        };
        if !rd.done() {
            return None;
        }
        let x = UnlockAchievementOptions { achievement_id: f_achievement_id };
        proof {
            assert(x.spec_encode() == v@);
            x.lemma_encode_accepted();
        }
        Some(x)
    }
}
impl BridgeDto for IncrementAchievementOptions {
    open spec fn spec_encode(self) -> ValueView {
        let fs = Seq::<(Seq<char>, ValueView)>::empty();
        let fs = fs.push(("achievementID"@, ValueView::Str(self.achievement_id@)));
        let fs = fs.push(("pointsToIncrement"@, ValueView::Int(self.points_to_increment as int)));
        ValueView::Obj(fs)
    }

    open spec fn spec_accepts(m: ValueView) -> bool {
        &&& m matches ValueView::Obj(fs)
        &&& {
            match req_field(fs, 0, "achievementID"@) {
                Some((v0, i0)) => v0 is Str && {
                    match req_field(fs, i0, "pointsToIncrement"@) {
                        Some((v1, i1)) => (v1 matches ValueView::Int(n) && i32::MIN as int <= n <= i32::MAX as int) && {
                            i1 == fs.len()
                        },
                        None => false,
                    }
                },
                None => false,
            }
        }
    }

    open spec fn spec_typename() -> Seq<char> {
        "IncrementAchievementOptions"@
    }

    proof fn lemma_encode_accepted(&self) {
    }

    fn typename() -> (r: &'static str) {
        "IncrementAchievementOptions"
    }

    fn to_bridge(&self) -> (r: Value) {
        let mut b = ObjBuilder::new();
        b.put("achievementID", Value::Str(self.achievement_id.clone()));
        b.put("pointsToIncrement", Value::Int(self.points_to_increment as i64));
        proof {
            assert(self.spec_encode() == ValueView::Obj(b@));
        }
        b.finish()
    }

    fn from_bridge(v: &Value) -> (r: Option<Self>) {
        let mut rd = match ObjReader::start(v) {
            Some(rd) => rd,
            None => {
                return None;
            },
        };
        let f_achievement_id: String = match rd.req("achievementID") {
            Some(vv) => match vv {
                Value::Str(s) => s.clone(),
                _ => {
                    return None;
                },
            },
            None => {
                return None;
            },
        };
        let f_points_to_increment: i32 = match rd.req("pointsToIncrement") {
            Some(vv) => match vv {
                Value::Int(n) => {
                    if *n < i32::MIN as i64 || *n > i32::MAX as i64 {
                        return None;
                    }
                    *n as i32
                },
                _ => {
                    return None;
                },
            },
            None => {
                return None;
            },
        };
        if !rd.done() {
            return None;
        }
        let x = IncrementAchievementOptions { achievement_id: f_achievement_id, points_to_increment: f_points_to_increment };
        proof {
            assert(x.spec_encode() == v@);
            x.lemma_encode_accepted();
        }
        Some(x)
    }
}
impl BridgeDto for User {
    open spec fn spec_encode(self) -> ValueView {
        let fs = Seq::<(Seq<char>, ValueView)>::empty();
        let fs = fs.push(("player_name"@, ValueView::Str(self.player_name@)));
        let fs = fs.push(("player_id"@, ValueView::Str(self.player_id@)));
        ValueView::Obj(fs)
    }

    open spec fn spec_accepts(m: ValueView) -> bool {
        &&& m matches ValueView::Obj(fs)
        &&& {
            match req_field(fs, 0, "player_name"@) {
                Some((v0, i0)) => v0 is Str && {
                    match req_field(fs, i0, "player_id"@) {
                        Some((v1, i1)) => v1 is Str && {
                            i1 == fs.len()
                        },
                        None => false,
                    }
                },
                None => false,
            }
        }
    }

    open spec fn spec_typename() -> Seq<char> {
        "User"@
    }

    proof fn lemma_encode_accepted(&self) {
    }

    fn typename() -> (r: &'static str) {
        "User"
    }

    fn to_bridge(&self) -> (r: Value) {
        let mut b = ObjBuilder::new();
        b.put("player_name", Value::Str(self.player_name.clone()));
        b.put("player_id", Value::Str(self.player_id.clone()));
        proof {
            assert(self.spec_encode() == ValueView::Obj(b@));
        }
        b.finish()
    }

    fn from_bridge(v: &Value) -> (r: Option<Self>) {
        let mut rd = match ObjReader::start(v) {
            Some(rd) => rd,
            None => {
                return None;
            },
        };
        let f_player_name: String = match rd.req("player_name") {
            Some(vv) => match vv {
                Value::Str(s) => s.clone(),
                _ => {
                    return None;
                },
            },
            None => {
                return None;
            },
        };
        let f_player_id: String = match rd.req("player_id") {
            Some(vv) => match vv {
                Value::Str(s) => s.clone(),
                _ => {
                    return None;
                },
            },
            None => {
                return None;
            },
        };
        if !rd.done() {
            return None;
        }
        let x = User { player_name: f_player_name, player_id: f_player_id };
        proof {
            assert(x.spec_encode() == v@);
            x.lemma_encode_accepted();
        }
        Some(x)
    }
}

} // verus!
