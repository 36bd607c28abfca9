//! The saved record: high score, the ranked leaderboard and totals.
use vstd::prelude::*;
use crate::catalog::BirdCharacter;

verus! {

/// Most entries the leaderboard keeps.
pub const LEADERBOARD_SIZE: usize = 10;

/// One finished game on the leaderboard.
#[derive(Debug)]
pub struct LeaderboardEntry {
    pub score: u32,
    pub character: BirdCharacter,
    /// Seconds since the Unix epoch at the end of the game.
    pub timestamp: u64,
    pub player_name: String,
}

/// The content of a [`LeaderboardEntry`].
pub struct EntryView {
    pub score: u32,
    pub character: BirdCharacter,
    pub timestamp: u64,
    pub player_name: Seq<char>,
}

impl View for LeaderboardEntry {
    type V = EntryView;

    open spec fn view(&self) -> EntryView {
        EntryView {
            score: self.score,
            character: self.character,
            timestamp: self.timestamp,
            player_name: self.player_name@,
        }
    }
}

/// The content of a board.
pub open spec fn board_view(b: Seq<LeaderboardEntry>) -> Seq<EntryView> {
    b.map_values(|e: LeaderboardEntry| e@)
}

/// What is kept between runs.
#[derive(Debug)]
pub struct SaveData {
    pub high_score: u32,
    pub selected_character: BirdCharacter,
    pub leaderboard: Vec<LeaderboardEntry>,
    pub total_games: u32,
    pub total_score: u32,
}

/// Scores never increase along the board.
pub open spec fn board_sorted(b: Seq<EntryView>) -> bool {
    forall|i: int, j: int| 0 <= i < j < b.len() ==> #[trigger] b[i].score >= #[trigger] b[j].score
}

/// How many entries of the board score at least `score`.
pub open spec fn count_at_least(b: Seq<EntryView>, score: u32) -> nat
    decreases b.len(),
{
    if b.len() == 0 {
        0
    } else {
        count_at_least(b.drop_last(), score) + if b.last().score >= score {
            1nat
        } else {
            0nat
        }
    }
}

/// The board with a new entry: it goes after every entry with an equal or
/// higher score, and only the best ten stay.
pub open spec fn ranked_insert(b: Seq<EntryView>, e: EntryView) -> Seq<EntryView> {
    let board = b.insert(count_at_least(b, e.score) as int, e);
    if board.len() > LEADERBOARD_SIZE {
        board.take(LEADERBOARD_SIZE as int)
    } else {
        board
    }
}

/// Display name recorded for a character's entry.
pub open spec fn player_name_of(character: BirdCharacter) -> Seq<char> {
    "玩家"@ + character.spec_name()
}

impl SaveData {
    /// The leaderboard holds at most ten entries, best first.
    pub open spec fn wf(&self) -> bool {
        self.leaderboard@.len() <= LEADERBOARD_SIZE && board_sorted(board_view(self.leaderboard@))
    }

    /// Whether the totals have room for one more game of `score` points.
    pub open spec fn can_record(&self, score: u32) -> bool {
        self.total_games < u32::MAX && self.total_score + score <= u32::MAX
    }

    /// An empty record with the first character selected.
    pub fn new() -> (r: SaveData)
        ensures
            r.wf(),
            r.high_score == 0,
            r.selected_character == BirdCharacter::YellowBird,
            r.leaderboard@.len() == 0,
            r.total_games == 0,
            r.total_score == 0,
    {
        SaveData {
            high_score: 0,
            selected_character: BirdCharacter::YellowBird,
            leaderboard: Vec::new(),
            total_games: 0,
            total_score: 0,
        }
    }

    /// Checks [`SaveData::wf`].
    pub fn is_well_formed(&self) -> (r: bool)
        ensures
            r == self.wf(),
    {
        let n = self.leaderboard.len();
        if n > LEADERBOARD_SIZE {
            return false;
        }
        let mut i: usize = 1;
        while i < n
            invariant
                1 <= i <= n || n == 0,
                n == self.leaderboard@.len(),
                forall|a: int, b: int|
                    0 <= a < b < i && b < n ==> #[trigger] board_view(self.leaderboard@)[a].score
                        >= #[trigger] board_view(self.leaderboard@)[b].score,
            decreases n - i,
        {
            if self.leaderboard[i - 1].score < self.leaderboard[i].score {
                proof {
                    let v = board_view(self.leaderboard@);
                    assert(v[i - 1].score < v[i as int].score);
                }
                return false;
            }
            proof {
                let v = board_view(self.leaderboard@);
                assert forall|a: int, b: int| 0 <= a < b < i + 1 && b < n implies #[trigger] v[a].score
                    >= #[trigger] v[b].score by {
                    if b == i && a < i - 1 {
                        assert(v[a].score >= v[i - 1].score);
                    }
                }
            }
            i += 1;
        }
        true
    }

    /// Checks [`SaveData::can_record`].
    pub fn can_add_score(&self, score: u32) -> (r: bool)
        ensures
            r == self.can_record(score),
    {
        self.total_games < u32::MAX && self.total_score as u64 + score as u64 <= u32::MAX as u64
    }
}

proof fn lemma_count_all(b: Seq<EntryView>, score: u32, j: int)
    requires
        0 <= j <= b.len(),
        forall|k: int| 0 <= k < j ==> #[trigger] b[k].score >= score,
    ensures
        count_at_least(b.take(j), score) == j,
    decreases j,
{
    if j > 0 {
        assert(b.take(j).drop_last() =~= b.take(j - 1));
        lemma_count_all(b, score, j - 1);
    }
}

impl Default for SaveData {
    fn default() -> (r: SaveData)
        ensures
            r.wf(),
            r.high_score == 0,
            r.selected_character == BirdCharacter::YellowBird,
            r.leaderboard@.len() == 0,
            r.total_games == 0,
            r.total_score == 0,
    {
        SaveData::new()
    }
}

/// Entries scoring at least `score` form a prefix of a sorted board.
proof fn lemma_count_prefix(b: Seq<EntryView>, score: u32, p: int, j: int)
    requires
        board_sorted(b),
        0 <= p <= j <= b.len(),
        forall|k: int| 0 <= k < p ==> #[trigger] b[k].score >= score,
        p < b.len() ==> b[p].score < score,
    ensures
        count_at_least(b.take(j), score) == p,
    decreases j,
{
    if j > p {
        assert(b.take(j).drop_last() =~= b.take(j - 1));
        lemma_count_prefix(b, score, p, j - 1);
        assert(b[j - 1].score <= b[p].score);
    } else {
        lemma_count_all(b, score, j);
    }
}

/// Finds where an entry of `score` goes in a sorted board.
fn insert_position(board: &Vec<LeaderboardEntry>, score: u32) -> (p: usize)
    requires
        board_sorted(board_view(board@)),
    ensures
        p == count_at_least(board_view(board@), score),
        p <= board@.len(),
        forall|k: int| 0 <= k < p ==> #[trigger] board@[k].score >= score,
        forall|k: int| p <= k < board@.len() ==> #[trigger] board@[k].score < score,
{
    let ghost v = board_view(board@);
    let mut p: usize = 0;
    while p < board.len() && board[p].score >= score
        invariant
            p <= board@.len(),
            forall|k: int| 0 <= k < p ==> #[trigger] board@[k].score >= score,
        decreases board@.len() - p,
    {
        p += 1;
    }
    proof {
        assert forall|k: int| 0 <= k < p implies #[trigger] v[k].score >= score by {
            assert(v[k].score == board@[k].score);
        }
        if p < board@.len() {
            assert(v[p as int].score == board@[p as int].score);
        }
        lemma_count_prefix(v, score, p as int, v.len() as int);
        assert(v.take(v.len() as int) =~= v);
        assert forall|k: int| p <= k < board@.len() implies #[trigger] board@[k].score < score by {
            assert(v[k].score <= v[p as int].score);
        }
    }
    p
}

/// The name recorded with an entry: the word for player followed by the
/// character's name.
pub fn player_name(character: BirdCharacter) -> (r: String)
    ensures
        r@ == player_name_of(character),
{
    String::from_str("玩家").concat(character.get_name())
}

/// Records a finished game of `score` points played with `character` and
/// ended at `timestamp`: the entry is ranked into the board (which keeps its
/// best ten), the totals grow by one game and `score` points, and the high
/// score rises to `score` if it is higher.
pub fn add_score_to_leaderboard(save_data: SaveData, score: u32, character: BirdCharacter, timestamp: u64) -> (r:
    SaveData)
    requires
        save_data.wf(),
        save_data.can_record(score),
    ensures
        r.wf(),
        board_view(r.leaderboard@) == ranked_insert(
            board_view(save_data.leaderboard@),
            EntryView { score, character, timestamp, player_name: player_name_of(character) },
        ),
        r.total_games == save_data.total_games + 1,
        r.total_score == save_data.total_score + score,
        r.high_score == if score > save_data.high_score {
            score
        } else {
            save_data.high_score
        },
        r.selected_character == save_data.selected_character,
{
    let mut save_data = save_data;
    let ghost b0 = save_data.leaderboard@;
    let entry = LeaderboardEntry { score, character, timestamp, player_name: player_name(character) };
    let p = insert_position(&save_data.leaderboard, score);
    save_data.leaderboard.insert(p, entry);
    let ghost b1 = save_data.leaderboard@;
    save_data.leaderboard.truncate(LEADERBOARD_SIZE);
    proof {
        let f = |e: LeaderboardEntry| e@;
        assert(board_view(b1) =~= board_view(b0).insert(p as int, entry@));
        let v1 = board_view(b1);
        assert forall|i: int, j: int| 0 <= i < j < v1.len() implies #[trigger] v1[i].score >= #[trigger] v1[j].score by {
            assert(v1[i].score == b1[i].score && v1[j].score == b1[j].score);
            if i < p && j > p {
                assert(b1[j].score == b0[j - 1].score);
            } else if i > p {
                assert(b1[i].score == b0[i - 1].score && b1[j].score == b0[j - 1].score);
                assert(board_view(b0)[i - 1].score >= board_view(b0)[j - 1].score);
            } else if j < p {
                assert(board_view(b0)[i].score >= board_view(b0)[j].score);
            } else if i == p {
                assert(b1[j].score == b0[j - 1].score);
            }
        }
        if b1.len() > LEADERBOARD_SIZE {
            assert(board_view(save_data.leaderboard@) =~= v1.take(LEADERBOARD_SIZE as int));
        } else {
            assert(save_data.leaderboard@ == b1);
        }
        let v = board_view(save_data.leaderboard@);
        assert forall|i: int, j: int| 0 <= i < j < v.len() implies #[trigger] v[i].score >= #[trigger] v[j].score by {
            assert(v[i] == v1[i] && v[j] == v1[j]);
        }
    }
    save_data.total_games = save_data.total_games + 1;
    save_data.total_score = save_data.total_score + score;
    if score > save_data.high_score {
        save_data.high_score = score;
    }
    save_data
}

} // verus!
