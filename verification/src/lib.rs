//! Typed message protocol for a board-game analysis engine driven over
//! line-delimited JSON: the message model for outgoing actions and incoming
//! responses, and the wire codec that maps them to and from JSON-line text.
//!
//! Numeric analysis values (winrates, scores, komi) travel as exact JSON
//! number tokens held in [`JsonNumber`], so nothing is rounded or distorted
//! in transit; interpreting them numerically is the caller's concern.

use vstd::prelude::*;

pub mod decode;
pub mod encode;
pub mod json;
pub mod laws;
pub mod parse;
pub mod text;

use crate::json::{Json, JsonV, view_json};

verus! {

/// A JSON number kept as its exact wire token text.
#[derive(Clone, Debug, PartialEq, Eq)]
pub struct JsonNumber {
    pub text: String,
}

impl DeepView for JsonNumber {
    type V = Seq<char>;

    open spec fn deep_view(&self) -> Seq<char> {
        self.text@
    }
}

/// A player colour; encodes as `"B"` or `"W"`.
#[derive(Clone, Copy, Debug, PartialEq, Eq, Structural)]
pub enum Player {
    Black,
    White,
}

impl DeepView for Player {
    type V = Player;

    open spec fn deep_view(&self) -> Player {
        *self
    }
}

/// A rule-set preset; encodes as its hyphenated lowercase wire name.
#[derive(Clone, Copy, Debug, PartialEq, Eq, Structural)]
pub enum Rules {
    TrompTaylor,
    Chinese,
    ChineseOgs,
    ChineseKgs,
    Japanese,
    Korean,
    StoneScoring,
    Aga,
    Bga,
    NewZealand,
    AgaButton,
}

/// A white handicap bonus policy; encodes as `"0"`, `"N"` or `"N-1"`.
#[derive(Clone, Copy, Debug, PartialEq, Eq, Structural)]
pub enum WhiteHandicapBonus {
    Zero,
    N,
    NMinusOne,
}

/// The discriminator of a version query; encodes as `"query_version"`.
#[derive(Clone, Copy, Debug, PartialEq, Eq, Structural)]
pub enum ActionQueryVersion {
    ActionQueryVersion,
}

/// The discriminator of a cache-clear request; encodes as `"clear_cache"`.
#[derive(Clone, Copy, Debug, PartialEq, Eq, Structural)]
pub enum ActionClearCache {
    ActionClearCache,
}

/// The discriminator of a terminate request; encodes as `"terminate"`.
#[derive(Clone, Copy, Debug, PartialEq, Eq, Structural)]
pub enum ActionTerminate {
    ActionTerminate,
}

/// The sentinel a version reply carries when the engine's git hash was left
/// out of its build: the literal wire string `"<omitted>"`.
#[derive(Clone, Copy, Debug, PartialEq, Eq, Structural)]
pub enum GitHashOmitted {
    Omitted,
}

/// A git hash from a version reply: either the omitted sentinel or the hash
/// text itself.
#[derive(Clone, Debug, PartialEq, Eq)]
pub enum GitHash {
    Omitted(GitHashOmitted),
    Included(String),
}

/// The mathematical shape of a [`GitHash`].
pub ghost enum GitHashV {
    Omitted,
    Included(Seq<char>),
}

impl DeepView for GitHash {
    type V = GitHashV;

    open spec fn deep_view(&self) -> GitHashV {
        match self {
            GitHash::Omitted(_) => GitHashV::Omitted,
            GitHash::Included(t) => GitHashV::Included(t@),
        }
    }
}

/// A move-restriction group: the player it applies to, the coordinates it
/// names, and the search depth up to which it holds.
#[derive(Clone, Debug, PartialEq, Eq)]
pub struct MoveGroup {
    pub player: Player,
    pub moves: Vec<String>,
    pub until_depth: u32,
}

/// The mathematical shape of a [`MoveGroup`].
pub ghost struct MoveGroupV {
    pub player: Player,
    pub moves: Seq<Seq<char>>,
    pub until_depth: u32,
}

impl DeepView for MoveGroup {
    type V = MoveGroupV;

    open spec fn deep_view(&self) -> MoveGroupV {
        MoveGroupV { player: self.player, moves: self.moves.deep_view(), until_depth: self.until_depth }
    }
}

/// Root-position analysis inside a result response.
#[derive(Clone, Debug, PartialEq, Eq)]
pub struct RootInfo {
    pub winrate: JsonNumber,
    pub score_lead: JsonNumber,
    pub score_selfplay: JsonNumber,
    pub utility: Option<JsonNumber>,
    pub visits: u32,
    pub this_hash: Option<String>,
    pub sym_hash: Option<String>,
    pub current_player: Option<Player>,
}

/// The mathematical shape of a [`RootInfo`].
pub ghost struct RootInfoV {
    pub winrate: Seq<char>,
    pub score_lead: Seq<char>,
    pub score_selfplay: Seq<char>,
    pub utility: Option<Seq<char>>,
    pub visits: u32,
    pub this_hash: Option<Seq<char>>,
    pub sym_hash: Option<Seq<char>>,
    pub current_player: Option<Player>,
}

impl DeepView for RootInfo {
    type V = RootInfoV;

    open spec fn deep_view(&self) -> RootInfoV {
        RootInfoV {
            winrate: self.winrate.deep_view(),
            score_lead: self.score_lead.deep_view(),
            score_selfplay: self.score_selfplay.deep_view(),
            utility: self.utility.deep_view(),
            visits: self.visits,
            this_hash: self.this_hash.deep_view(),
            sym_hash: self.sym_hash.deep_view(),
            current_player: self.current_player,
        }
    }
}

/// One candidate move's analysis inside a result response.
#[derive(Clone, Debug, PartialEq, Eq)]
pub struct MoveInfo {
    pub mv: String,
    pub winrate: JsonNumber,
    pub visits: u32,
    pub score_lead: JsonNumber,
    pub score_selfplay: JsonNumber,
    pub score_stdev: JsonNumber,
    pub prior: JsonNumber,
    pub utility: JsonNumber,
    pub lcb: JsonNumber,
    pub utility_lcb: JsonNumber,
    pub order: u16,
    pub is_symmetry_of: Option<String>,
    pub pv: Vec<String>,
    pub pv_visits: Option<Vec<u32>>,
    pub pv_edge_visits: Option<Vec<u32>>,
    pub ownership: Option<Vec<JsonNumber>>,
    pub ownership_stdev: Option<Vec<JsonNumber>>,
}

/// The mathematical shape of a [`MoveInfo`].
pub ghost struct MoveInfoV {
    pub mv: Seq<char>,
    pub winrate: Seq<char>,
    pub visits: u32,
    pub score_lead: Seq<char>,
    pub score_selfplay: Seq<char>,
    pub score_stdev: Seq<char>,
    pub prior: Seq<char>,
    pub utility: Seq<char>,
    pub lcb: Seq<char>,
    pub utility_lcb: Seq<char>,
    pub order: u16,
    pub is_symmetry_of: Option<Seq<char>>,
    pub pv: Seq<Seq<char>>,
    pub pv_visits: Option<Seq<u32>>,
    pub pv_edge_visits: Option<Seq<u32>>,
    pub ownership: Option<Seq<Seq<char>>>,
    pub ownership_stdev: Option<Seq<Seq<char>>>,
}

impl DeepView for MoveInfo {
    type V = MoveInfoV;

    open spec fn deep_view(&self) -> MoveInfoV {
        MoveInfoV {
            mv: self.mv@,
            winrate: self.winrate.deep_view(),
            visits: self.visits,
            score_lead: self.score_lead.deep_view(),
            score_selfplay: self.score_selfplay.deep_view(),
            score_stdev: self.score_stdev.deep_view(),
            prior: self.prior.deep_view(),
            utility: self.utility.deep_view(),
            lcb: self.lcb.deep_view(),
            utility_lcb: self.utility_lcb.deep_view(),
            order: self.order,
            is_symmetry_of: self.is_symmetry_of.deep_view(),
            pv: self.pv.deep_view(),
            pv_visits: self.pv_visits.deep_view(),
            pv_edge_visits: self.pv_edge_visits.deep_view(),
            ownership: self.ownership.deep_view(),
            ownership_stdev: self.ownership_stdev.deep_view(),
        }
    }
}

/// A reply from the engine, one of five shapes told apart structurally.
#[derive(Clone, Debug, PartialEq, Eq)]
pub enum KataResponse {
    Result {
        id: String,
        is_during_search: bool,
        move_infos: Vec<MoveInfo>,
        root_info: RootInfo,
        ownership: Option<Vec<JsonNumber>>,
        ownership_stdev: Option<Vec<JsonNumber>>,
        policy: Option<Vec<JsonNumber>>,
    },
    Resultless {
        id: String,
        is_during_search: bool,
        turn_number: u16,
        no_results: bool,
    },
    TerminateAck {
        id: String,
        action: ActionTerminate,
        turn_number: Option<u16>,
        terminate_id: String,
    },
    Version {
        action: ActionQueryVersion,
        git_hash: GitHash,
        id: String,
        version: String,
    },
    CacheCleared {
        id: String,
        action: ActionClearCache,
    },
}

/// The mathematical shape of a [`KataResponse`].
pub ghost enum KataResponseV {
    Result {
        id: Seq<char>,
        is_during_search: bool,
        move_infos: Seq<MoveInfoV>,
        root_info: RootInfoV,
        ownership: Option<Seq<Seq<char>>>,
        ownership_stdev: Option<Seq<Seq<char>>>,
        policy: Option<Seq<Seq<char>>>,
    },
    Resultless { id: Seq<char>, is_during_search: bool, turn_number: u16, no_results: bool },
    TerminateAck {
        id: Seq<char>,
        action: ActionTerminate,
        turn_number: Option<u16>,
        terminate_id: Seq<char>,
    },
    Version { action: ActionQueryVersion, git_hash: GitHashV, id: Seq<char>, version: Seq<char> },
    CacheCleared { id: Seq<char>, action: ActionClearCache },
}

impl DeepView for KataResponse {
    type V = KataResponseV;

    open spec fn deep_view(&self) -> KataResponseV {
        match self {
            KataResponse::Result {
                id,
                is_during_search,
                move_infos,
                root_info,
                ownership,
                ownership_stdev,
                policy,
            } => KataResponseV::Result {
                id: id@,
                is_during_search: *is_during_search,
                move_infos: move_infos.deep_view(),
                root_info: root_info.deep_view(),
                ownership: ownership.deep_view(),
                ownership_stdev: ownership_stdev.deep_view(),
                policy: policy.deep_view(),
            },
            KataResponse::Resultless { id, is_during_search, turn_number, no_results } => {
                KataResponseV::Resultless {
                    id: id@,
                    is_during_search: *is_during_search,
                    turn_number: *turn_number,
                    no_results: *no_results,
                }
            },
            KataResponse::TerminateAck { id, action, turn_number, terminate_id } => {
                KataResponseV::TerminateAck {
                    id: id@,
                    action: *action,
                    turn_number: *turn_number,
                    terminate_id: terminate_id@,
                }
            },
            KataResponse::Version { action, git_hash, id, version } => KataResponseV::Version {
                action: *action,
                git_hash: git_hash.deep_view(),
                id: id@,
                version: version@,
            },
            KataResponse::CacheCleared { id, action } => KataResponseV::CacheCleared {
                id: id@,
                action: *action,
            },
        }
    }
}

/// One analysis request. Optional fields left as `None` are omitted from
/// the encoded object entirely.
pub struct KataQuery {
    pub id: String,
    pub initial_stones: Option<Vec<(Player, String)>>,
    pub moves: Vec<(Player, String)>,
    pub rules: Rules,
    pub initial_player: Option<Player>,
    pub komi: Option<JsonNumber>,
    pub white_handicap_bonus: Option<WhiteHandicapBonus>,
    pub board_x_size: u8,
    pub board_y_size: u8,
    pub analyze_turns: Option<Vec<u16>>,
    pub max_visits: Option<u32>,
    pub root_policy_temperature: Option<JsonNumber>,
    pub root_fpu_reduction_max: Option<JsonNumber>,
    pub anaysis_pv_len: Option<u16>,
    pub include_ownership: Option<bool>,
    pub inlcude_ownership_stdev: Option<bool>,
    pub include_moves_ownership: Option<bool>,
    pub include_moves_ownership_stdev: Option<bool>,
    pub include_policy: Option<bool>,
    pub include_pv_visits: Option<bool>,
    pub avoid_moves: Option<Vec<MoveGroup>>,
    pub allow_moves: Option<MoveGroup>,
    pub override_settings: Option<Json>,
    pub report_during_search_every: Option<JsonNumber>,
    pub priority: Option<i32>,
    pub priorities: Option<Vec<i32>>,
}

/// The mathematical shape of a [`KataQuery`].
pub ghost struct KataQueryV {
    pub id: Seq<char>,
    pub initial_stones: Option<Seq<(Player, Seq<char>)>>,
    pub moves: Seq<(Player, Seq<char>)>,
    pub rules: Rules,
    pub initial_player: Option<Player>,
    pub komi: Option<Seq<char>>,
    pub white_handicap_bonus: Option<WhiteHandicapBonus>,
    pub board_x_size: u8,
    pub board_y_size: u8,
    pub analyze_turns: Option<Seq<u16>>,
    pub max_visits: Option<u32>,
    pub root_policy_temperature: Option<Seq<char>>,
    pub root_fpu_reduction_max: Option<Seq<char>>,
    pub anaysis_pv_len: Option<u16>,
    pub include_ownership: Option<bool>,
    pub inlcude_ownership_stdev: Option<bool>,
    pub include_moves_ownership: Option<bool>,
    pub include_moves_ownership_stdev: Option<bool>,
    pub include_policy: Option<bool>,
    pub include_pv_visits: Option<bool>,
    pub avoid_moves: Option<Seq<MoveGroupV>>,
    pub allow_moves: Option<MoveGroupV>,
    pub override_settings: Option<JsonV>,
    pub report_during_search_every: Option<Seq<char>>,
    pub priority: Option<i32>,
    pub priorities: Option<Seq<i32>>,
}

impl DeepView for KataQuery {
    type V = KataQueryV;

    open spec fn deep_view(&self) -> KataQueryV {
        KataQueryV {
            id: self.id@,
            initial_stones: self.initial_stones.deep_view(),
            moves: self.moves.deep_view(),
            rules: self.rules,
            initial_player: self.initial_player,
            komi: self.komi.deep_view(),
            white_handicap_bonus: self.white_handicap_bonus,
            board_x_size: self.board_x_size,
            board_y_size: self.board_y_size,
            analyze_turns: self.analyze_turns.deep_view(),
            max_visits: self.max_visits,
            root_policy_temperature: self.root_policy_temperature.deep_view(),
            root_fpu_reduction_max: self.root_fpu_reduction_max.deep_view(),
            anaysis_pv_len: self.anaysis_pv_len,
            include_ownership: self.include_ownership,
            inlcude_ownership_stdev: self.inlcude_ownership_stdev,
            include_moves_ownership: self.include_moves_ownership,
            include_moves_ownership_stdev: self.include_moves_ownership_stdev,
            include_policy: self.include_policy,
            include_pv_visits: self.include_pv_visits,
            avoid_moves: self.avoid_moves.deep_view(),
            allow_moves: match &self.allow_moves {
                Some(g) => Some(g.deep_view()),
                None => None,
            },
            override_settings: match &self.override_settings {
                Some(j) => Some(view_json(*j)),
                None => None,
            },
            report_during_search_every: self.report_during_search_every.deep_view(),
            priority: self.priority,
            priorities: self.priorities.deep_view(),
        }
    }
}

/// A message to the engine: an analysis query or one of the three control
/// requests, each carrying its own fresh `id`.
pub enum KataAction {
    Query { inner: KataQuery },
    QueryVersion { id: String, action: ActionQueryVersion },
    ClearCache { id: String, action: ActionClearCache },
    Terminate {
        id: String,
        action: ActionTerminate,
        terminate_id: String,
        turn_numbers: Option<Vec<u16>>,
    },
}

/// The mathematical shape of a [`KataAction`].
pub ghost enum KataActionV {
    Query { inner: KataQueryV },
    QueryVersion { id: Seq<char>, action: ActionQueryVersion },
    ClearCache { id: Seq<char>, action: ActionClearCache },
    Terminate {
        id: Seq<char>,
        action: ActionTerminate,
        terminate_id: Seq<char>,
        turn_numbers: Option<Seq<u16>>,
    },
}

impl DeepView for KataAction {
    type V = KataActionV;

    open spec fn deep_view(&self) -> KataActionV {
        match self {
            KataAction::Query { inner } => KataActionV::Query { inner: inner.deep_view() },
            KataAction::QueryVersion { id, action } => KataActionV::QueryVersion {
                id: id@,
                action: *action,
            },
            KataAction::ClearCache { id, action } => KataActionV::ClearCache {
                id: id@,
                action: *action,
            },
            KataAction::Terminate { id, action, terminate_id, turn_numbers } => {
                KataActionV::Terminate {
                    id: id@,
                    action: *action,
                    terminate_id: terminate_id@,
                    turn_numbers: turn_numbers.deep_view(),
                }
            },
        }
    }
}

/// The error of building a query with a required field left unset. Carries
/// the first missing field, in declaration order.
#[derive(Clone, Copy, Debug, PartialEq, Eq, Structural)]
pub enum QueryBuildError {
    MissingId,
    MissingMoves,
    MissingRules,
    MissingBoardXSize,
    MissingBoardYSize,
}

/// Step-by-step construction of a [`KataQuery`]: the required fields (id,
/// moves, rules, board sizes) must each be set before `build` succeeds; the
/// optional fields may be left out and are then omitted on the wire.
pub struct KataQueryBuilder {
    pub id: Option<String>,
    pub initial_stones: Option<Vec<(Player, String)>>,
    pub moves: Option<Vec<(Player, String)>>,
    pub rules: Option<Rules>,
    pub initial_player: Option<Player>,
    pub komi: Option<JsonNumber>,
    pub white_handicap_bonus: Option<WhiteHandicapBonus>,
    pub board_x_size: Option<u8>,
    pub board_y_size: Option<u8>,
    pub analyze_turns: Option<Vec<u16>>,
    pub max_visits: Option<u32>,
    pub root_policy_temperature: Option<JsonNumber>,
    pub root_fpu_reduction_max: Option<JsonNumber>,
    pub anaysis_pv_len: Option<u16>,
    pub include_ownership: Option<bool>,
    pub inlcude_ownership_stdev: Option<bool>,
    pub include_moves_ownership: Option<bool>,
    pub include_moves_ownership_stdev: Option<bool>,
    pub include_policy: Option<bool>,
    pub include_pv_visits: Option<bool>,
    pub avoid_moves: Option<Vec<MoveGroup>>,
    pub allow_moves: Option<MoveGroup>,
    pub override_settings: Option<Json>,
    pub report_during_search_every: Option<JsonNumber>,
    pub priority: Option<i32>,
    pub priorities: Option<Vec<i32>>,
}

impl KataQuery {
    /// A fresh builder with every field unset.
    pub fn builder() -> (r: KataQueryBuilder)
        ensures
            r.id is None,
            r.initial_stones is None,
            r.moves is None,
            r.rules is None,
            r.initial_player is None,
            r.komi is None,
            r.white_handicap_bonus is None,
            r.board_x_size is None,
            r.board_y_size is None,
            r.analyze_turns is None,
            r.max_visits is None,
            r.root_policy_temperature is None,
            r.root_fpu_reduction_max is None,
            r.anaysis_pv_len is None,
            r.include_ownership is None,
            r.inlcude_ownership_stdev is None,
            r.include_moves_ownership is None,
            r.include_moves_ownership_stdev is None,
            r.include_policy is None,
            r.include_pv_visits is None,
            r.avoid_moves is None,
            r.allow_moves is None,
            r.override_settings is None,
            r.report_during_search_every is None,
            r.priority is None,
            r.priorities is None,
    {
        KataQueryBuilder {
            id: None,
            initial_stones: None,
            moves: None,
            rules: None,
            initial_player: None,
            komi: None,
            white_handicap_bonus: None,
            board_x_size: None,
            board_y_size: None,
            analyze_turns: None,
            max_visits: None,
            root_policy_temperature: None,
            root_fpu_reduction_max: None,
            anaysis_pv_len: None,
            include_ownership: None,
            inlcude_ownership_stdev: None,
            include_moves_ownership: None,
            include_moves_ownership_stdev: None,
            include_policy: None,
            include_pv_visits: None,
            avoid_moves: None,
            allow_moves: None,
            override_settings: None,
            report_during_search_every: None,
            priority: None,
            priorities: None,
        }
    }
}

/// What `build` returns: the first missing required field's error, in
/// declaration order, or the finished query with every field carried over.
pub open spec fn spec_build(b: KataQueryBuilder) -> Result<KataQuery, QueryBuildError> {
    match (b.id, b.moves, b.rules, b.board_x_size, b.board_y_size) {
        (Option::None, _, _, _, _) => Err(QueryBuildError::MissingId),
        (Option::Some(_), Option::None, _, _, _) => Err(QueryBuildError::MissingMoves),
        (Option::Some(_), Option::Some(_), Option::None, _, _) => Err(QueryBuildError::MissingRules),
        (Option::Some(_), Option::Some(_), Option::Some(_), Option::None, _) => Err(
            QueryBuildError::MissingBoardXSize,
        ),
        (Option::Some(_), Option::Some(_), Option::Some(_), Option::Some(_), Option::None) => Err(
            QueryBuildError::MissingBoardYSize,
        ),
        (
            Option::Some(id),
            Option::Some(moves),
            Option::Some(rules),
            Option::Some(bx),
            Option::Some(by),
        ) => Ok(
            KataQuery {
                id: id,
                initial_stones: b.initial_stones,
                moves: moves,
                rules: rules,
                initial_player: b.initial_player,
                komi: b.komi,
                white_handicap_bonus: b.white_handicap_bonus,
                board_x_size: bx,
                board_y_size: by,
                analyze_turns: b.analyze_turns,
                max_visits: b.max_visits,
                root_policy_temperature: b.root_policy_temperature,
                root_fpu_reduction_max: b.root_fpu_reduction_max,
                anaysis_pv_len: b.anaysis_pv_len,
                include_ownership: b.include_ownership,
                inlcude_ownership_stdev: b.inlcude_ownership_stdev,
                include_moves_ownership: b.include_moves_ownership,
                include_moves_ownership_stdev: b.include_moves_ownership_stdev,
                include_policy: b.include_policy,
                include_pv_visits: b.include_pv_visits,
                avoid_moves: b.avoid_moves,
                allow_moves: b.allow_moves,
                override_settings: b.override_settings,
                report_during_search_every: b.report_during_search_every,
                priority: b.priority,
                priorities: b.priorities,
            },
        ),
    }
}

impl KataQueryBuilder {
    /// Set the caller-chosen request id (required).
    pub fn id(self, v: String) -> (r: Self)
        ensures
            r == (Self { id: Some(v), ..self }),
    {
        Self { id: Some(v), ..self }
    }

    /// Set the initial board setup.
    pub fn initial_stones(self, v: Vec<(Player, String)>) -> (r: Self)
        ensures
            r == (Self { initial_stones: Some(v), ..self }),
    {
        Self { initial_stones: Some(v), ..self }
    }

    /// Set the moves played so far (required).
    pub fn moves(self, v: Vec<(Player, String)>) -> (r: Self)
        ensures
            r == (Self { moves: Some(v), ..self }),
    {
        Self { moves: Some(v), ..self }
    }

    /// Set the rule-set preset (required).
    pub fn rules(self, v: Rules) -> (r: Self)
        ensures
            r == (Self { rules: Some(v), ..self }),
    {
        Self { rules: Some(v), ..self }
    }

    /// Set the initial player to move.
    pub fn initial_player(self, v: Player) -> (r: Self)
        ensures
            r == (Self { initial_player: Some(v), ..self }),
    {
        Self { initial_player: Some(v), ..self }
    }

    /// Set the komi.
    pub fn komi(self, v: JsonNumber) -> (r: Self)
        ensures
            r == (Self { komi: Some(v), ..self }),
    {
        Self { komi: Some(v), ..self }
    }

    /// Set the white handicap bonus policy.
    pub fn white_handicap_bonus(self, v: WhiteHandicapBonus) -> (r: Self)
        ensures
            r == (Self { white_handicap_bonus: Some(v), ..self }),
    {
        Self { white_handicap_bonus: Some(v), ..self }
    }

    /// Set the board width (required).
    pub fn board_x_size(self, v: u8) -> (r: Self)
        ensures
            r == (Self { board_x_size: Some(v), ..self }),
    {
        Self { board_x_size: Some(v), ..self }
    }

    /// Set the board height (required).
    pub fn board_y_size(self, v: u8) -> (r: Self)
        ensures
            r == (Self { board_y_size: Some(v), ..self }),
    {
        Self { board_y_size: Some(v), ..self }
    }

    /// Set the turn indices at which to report analysis.
    pub fn analyze_turns(self, v: Vec<u16>) -> (r: Self)
        ensures
            r == (Self { analyze_turns: Some(v), ..self }),
    {
        Self { analyze_turns: Some(v), ..self }
    }

    /// Set the visit-count cap.
    pub fn max_visits(self, v: u32) -> (r: Self)
        ensures
            r == (Self { max_visits: Some(v), ..self }),
    {
        Self { max_visits: Some(v), ..self }
    }

    /// Set the root policy temperature.
    pub fn root_policy_temperature(self, v: JsonNumber) -> (r: Self)
        ensures
            r == (Self { root_policy_temperature: Some(v), ..self }),
    {
        Self { root_policy_temperature: Some(v), ..self }
    }

    /// Set the first-play-urgency reduction cap.
    pub fn root_fpu_reduction_max(self, v: JsonNumber) -> (r: Self)
        ensures
            r == (Self { root_fpu_reduction_max: Some(v), ..self }),
    {
        Self { root_fpu_reduction_max: Some(v), ..self }
    }

    /// Set the principal-variation length cap.
    pub fn anaysis_pv_len(self, v: u16) -> (r: Self)
        ensures
            r == (Self { anaysis_pv_len: Some(v), ..self }),
    {
        Self { anaysis_pv_len: Some(v), ..self }
    }

    /// Ask for (or suppress) the ownership map.
    pub fn include_ownership(self, v: bool) -> (r: Self)
        ensures
            r == (Self { include_ownership: Some(v), ..self }),
    {
        Self { include_ownership: Some(v), ..self }
    }

    /// Ask for the ownership standard deviation map.
    pub fn inlcude_ownership_stdev(self, v: bool) -> (r: Self)
        ensures
            r == (Self { inlcude_ownership_stdev: Some(v), ..self }),
    {
        Self { inlcude_ownership_stdev: Some(v), ..self }
    }

    /// Ask for per-move ownership maps.
    pub fn include_moves_ownership(self, v: bool) -> (r: Self)
        ensures
            r == (Self { include_moves_ownership: Some(v), ..self }),
    {
        Self { include_moves_ownership: Some(v), ..self }
    }

    /// Ask for per-move ownership standard deviation maps.
    pub fn include_moves_ownership_stdev(self, v: bool) -> (r: Self)
        ensures
            r == (Self { include_moves_ownership_stdev: Some(v), ..self }),
    {
        Self { include_moves_ownership_stdev: Some(v), ..self }
    }

    /// Ask for the policy output.
    pub fn include_policy(self, v: bool) -> (r: Self)
        ensures
            r == (Self { include_policy: Some(v), ..self }),
    {
        Self { include_policy: Some(v), ..self }
    }

    /// Ask for per-ply visit counts along principal variations.
    pub fn include_pv_visits(self, v: bool) -> (r: Self)
        ensures
            r == (Self { include_pv_visits: Some(v), ..self }),
    {
        Self { include_pv_visits: Some(v), ..self }
    }

    /// Set the avoid-move groups.
    pub fn avoid_moves(self, v: Vec<MoveGroup>) -> (r: Self)
        ensures
            r == (Self { avoid_moves: Some(v), ..self }),
    {
        Self { avoid_moves: Some(v), ..self }
    }

    /// Set the single allow-move group.
    pub fn allow_moves(self, v: MoveGroup) -> (r: Self)
        ensures
            r == (Self { allow_moves: Some(v), ..self }),
    {
        Self { allow_moves: Some(v), ..self }
    }

    /// Set the free-form engine-settings override object.
    pub fn override_settings(self, v: Json) -> (r: Self)
        ensures
            r == (Self { override_settings: Some(v), ..self }),
    {
        Self { override_settings: Some(v), ..self }
    }

    /// Set the progress-report interval.
    pub fn report_during_search_every(self, v: JsonNumber) -> (r: Self)
        ensures
            r == (Self { report_during_search_every: Some(v), ..self }),
    {
        Self { report_during_search_every: Some(v), ..self }
    }

    /// Set the scheduling priority.
    pub fn priority(self, v: i32) -> (r: Self)
        ensures
            r == (Self { priority: Some(v), ..self }),
    {
        Self { priority: Some(v), ..self }
    }

    /// Set the per-turn scheduling priorities.
    pub fn priorities(self, v: Vec<i32>) -> (r: Self)
        ensures
            r == (Self { priorities: Some(v), ..self }),
    {
        Self { priorities: Some(v), ..self }
    }

    /// Finish construction: succeeds exactly when every required field (id,
    /// moves, rules, board width, board height) was set, and otherwise
    /// reports the first missing one in declaration order.
    pub fn build(self) -> (r: Result<KataQuery, QueryBuildError>)
        ensures
            r == spec_build(self),
    {
        let KataQueryBuilder {
            id,
            initial_stones,
            moves,
            rules,
            initial_player,
            komi,
            white_handicap_bonus,
            board_x_size,
            board_y_size,
            analyze_turns,
            max_visits,
            root_policy_temperature,
            root_fpu_reduction_max,
            anaysis_pv_len,
            include_ownership,
            inlcude_ownership_stdev,
            include_moves_ownership,
            include_moves_ownership_stdev,
            include_policy,
            include_pv_visits,
            avoid_moves,
            allow_moves,
            override_settings,
            report_during_search_every,
            priority,
            priorities,
        } = self;
        let id = match id {
            Some(v) => v,
            None => {
                return Err(QueryBuildError::MissingId);
            },
        };
        let moves = match moves {
            Some(v) => v,
            None => {
                return Err(QueryBuildError::MissingMoves);
            },
        };
        let rules = match rules {
            Some(v) => v,
            None => {
                return Err(QueryBuildError::MissingRules);
            },
        };
        let board_x_size = match board_x_size {
            Some(v) => v,
            None => {
                return Err(QueryBuildError::MissingBoardXSize);
            },
        };
        let board_y_size = match board_y_size {
            Some(v) => v,
            None => {
                return Err(QueryBuildError::MissingBoardYSize);
            },
        };
        Ok(
            KataQuery {
                id,
                initial_stones,
                moves,
                rules,
                initial_player,
                komi,
                white_handicap_bonus,
                board_x_size,
                board_y_size,
                analyze_turns,
                max_visits,
                root_policy_temperature,
                root_fpu_reduction_max,
                anaysis_pv_len,
                include_ownership,
                inlcude_ownership_stdev,
                include_moves_ownership,
                include_moves_ownership_stdev,
                include_policy,
                include_pv_visits,
                avoid_moves,
                allow_moves,
                override_settings,
                report_during_search_every,
                priority,
                priorities,
            },
        )
    }
}

} // verus!
