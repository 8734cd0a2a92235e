use vstd::prelude::*;

use crate::lines::{lines_of, split_lines, string_views};
use crate::random::{random_below, thread_generator};

verus! {

/// Coordinates drawn for a new token lie below this bound, on both axes.
pub const CANVAS_SIZE: u32 = 1000;

/// One movable labelled item of the board.
pub struct Token {
    pub id: usize,
    pub label: String,
    pub x: u32,
    pub y: u32,
}

/// What a token holds, as mathematical values.
pub struct TokenView {
    pub id: nat,
    pub label: Seq<char>,
    pub x: u32,
    pub y: u32,
}

impl View for Token {
    type V = TokenView;

    open spec fn view(&self) -> TokenView {
        TokenView { id: self.id as nat, label: self.label@, x: self.x, y: self.y }
    }
}

impl Token {
    /// A copy of this token.
    pub fn duplicate(&self) -> (r: Token)
        ensures
            r@ == self@,
    {
        Token { id: self.id, label: self.label.clone(), x: self.x, y: self.y }
    }
}

/// The views of a list of tokens.
pub open spec fn tokens_view(tokens: Seq<Token>) -> Seq<TokenView> {
    tokens.map_values(|t: Token| t@)
}

/// Each token's id is its position in the document.
pub open spec fn dense(doc: Seq<TokenView>) -> bool {
    forall|i: int| 0 <= i < doc.len() ==> #[trigger] doc[i].id == i
}

/// The document of `labels` with the given coordinates, one pair per label.
pub open spec fn placed(labels: Seq<Seq<char>>, coordinates: Seq<(u32, u32)>) -> Seq<TokenView> {
    Seq::new(
        labels.len(),
        |i: int| TokenView { id: i as nat, label: labels[i], x: coordinates[i].0, y: coordinates[i].1 },
    )
}

/// `doc` holds one token per label, in order, with dense ids and coordinates
/// on the canvas.
pub open spec fn laid_out(doc: Seq<TokenView>, labels: Seq<Seq<char>>) -> bool {
    &&& doc.len() == labels.len()
    &&& dense(doc)
    &&& forall|i: int|
        0 <= i < doc.len() ==> (#[trigger] doc[i]).label == labels[i] && doc[i].x < CANVAS_SIZE
            && doc[i].y < CANVAS_SIZE
}

/// Gives each label a token whose id is its position and whose coordinates
/// are the pair at the same position.
pub fn place_tokens(labels: &Vec<String>, coordinates: &Vec<(u32, u32)>) -> (r: Vec<Token>)
    requires
        coordinates@.len() == labels@.len(),
    ensures
        tokens_view(r@) == placed(string_views(labels@), coordinates@),
{
    let n = labels.len();
    let ghost label_views = string_views(labels@);
    let mut tokens: Vec<Token> = Vec::new();
    let mut i: usize = 0;
    while i < n
        invariant
            n == coordinates@.len() == label_views.len(),
            i <= n,
            label_views == string_views(labels@),
            tokens_view(tokens@) == placed(label_views, coordinates@).subrange(0, i as int),
        decreases n - i,
    {
        let label = labels[i].clone();
        let (x, y) = coordinates[i];
        let ghost before = tokens@;
        tokens.push(Token { id: i, label, x, y });
        proof {
            let want = placed(label_views, coordinates@);
            assert(tokens_view(before) == want.subrange(0, i as int));
            assert(tokens_view(before).len() == before.len());
            assert forall|k: int| 0 <= k < i + 1 implies #[trigger] tokens_view(tokens@)[k]
                == want[k] by {
                if k < i {
                    assert(tokens@[k] == before[k]);
                    assert(tokens_view(before)[k] == want.subrange(0, i as int)[k]);
                } else {
                    assert(tokens@[k]@.label == labels@[k]@);
                    assert(label_views[k] == labels@[k]@);
                }
            }
            assert(tokens_view(tokens@) =~= want.subrange(0, i + 1));
        }
        i = i + 1;
    }
    assert(placed(label_views, coordinates@).subrange(0, n as int) =~= placed(
        label_views,
        coordinates@,
    ));
    tokens
}

/// The tokens of a newline-separated word list: one per line, in order, each
/// with its line number as id and with coordinates drawn at random on the
/// canvas.
pub fn build_words(words: &str) -> (r: Vec<Token>)
    ensures
        laid_out(tokens_view(r@), lines_of(words@)),
{
    let labels = split_lines(words);
    let n = labels.len();
    let mut generator = thread_generator();
    let mut coordinates: Vec<(u32, u32)> = Vec::new();
    while coordinates.len() < n
        invariant
            coordinates@.len() <= n,
            forall|k: int|
                0 <= k < coordinates@.len() ==> (#[trigger] coordinates@[k]).0 < CANVAS_SIZE
                    && coordinates@[k].1 < CANVAS_SIZE,
        decreases n - coordinates@.len(),
    {
        let x = random_below(&mut generator, CANVAS_SIZE);
        let y = random_below(&mut generator, CANVAS_SIZE);
        coordinates.push((x, y));
    }
    let tokens = place_tokens(&labels, &coordinates);
    proof {
        let doc = tokens_view(tokens@);
        assert forall|i: int| 0 <= i < doc.len() implies #[trigger] doc[i].id == i by {
            assert(doc[i] == placed(string_views(labels@), coordinates@)[i]);
        }
        assert forall|i: int| 0 <= i < doc.len() implies (#[trigger] doc[i]).x < CANVAS_SIZE
            && doc[i].y < CANVAS_SIZE by {
            assert(doc[i] == placed(string_views(labels@), coordinates@)[i]);
        }
    }
    tokens
}

} // verus!

verus! {

/// `doc` with the token at `id` moved to `(x, y)`, everything else as it was.
pub open spec fn moved(doc: Seq<TokenView>, id: int, x: u32, y: u32) -> Seq<TokenView> {
    doc.update(id, TokenView { id: doc[id].id, label: doc[id].label, x, y })
}

/// The document after a replace of `before` by `fresh`.
pub open spec fn replaced(before: Seq<TokenView>, fresh: Seq<TokenView>) -> Seq<TokenView> {
    fresh
}

/// Why a move was refused.
#[derive(Clone, Copy, Debug, PartialEq, Eq, Structural)]
pub enum MoveError {
    /// No token has the requested id.
    NotFound,
}

/// The authoritative document: the tokens of the last load, in id order,
/// with the positions of the last accepted moves.
pub struct DocumentStore {
    tokens: Vec<Token>,
}

impl View for DocumentStore {
    type V = Seq<TokenView>;

    closed spec fn view(&self) -> Seq<TokenView> {
        tokens_view(self.tokens@)
    }
}

impl DocumentStore {
    /// The ids of the stored tokens are their positions.
    pub open spec fn well_formed(&self) -> bool {
        dense(self@)
    }

    /// An empty document.
    pub fn new() -> (r: DocumentStore)
        ensures
            r@ == Seq::<TokenView>::empty(),
            r.well_formed(),
    {
        let r = DocumentStore { tokens: Vec::new() };
        assert(r@ =~= Seq::<TokenView>::empty());
        r
    }

    /// The number of tokens.
    pub fn len(&self) -> (r: usize)
        ensures
            r == self@.len(),
    {
        self.tokens.len()
    }

    /// Replaces the whole document by `tokens` in one step: nothing of the
    /// previous document remains.
    pub fn replace(&mut self, tokens: Vec<Token>)
        requires
            dense(tokens_view(tokens@)),
        ensures
            final(self)@ == replaced(old(self)@, tokens_view(tokens@)),
            final(self).well_formed(),
    {
        self.tokens = tokens;
    }

    /// Replaces the whole document by the tokens of a newline-separated word
    /// list, placed at random on the canvas.
    pub fn load(&mut self, raw_text: &str)
        ensures
            laid_out(final(self)@, lines_of(raw_text@)),
            final(self).well_formed(),
    {
        let tokens = build_words(raw_text);
        self.replace(tokens);
    }

    /// Moves the token `id` to `(x, y)` and returns it as it now is; fails
    /// with `NotFound`, changing nothing, when no token has that id.
    pub fn apply_move(&mut self, id: usize, x: u32, y: u32) -> (r: Result<Token, MoveError>)
        requires
            old(self).well_formed(),
        ensures
            final(self).well_formed(),
            r is Ok <==> id < old(self)@.len(),
            r is Ok ==> final(self)@ == moved(old(self)@, id as int, x, y) && r->Ok_0@
                == final(self)@[id as int],
            r is Err ==> r == Err::<Token, MoveError>(MoveError::NotFound) && final(self)@ == old(
                self,
            )@,
    {
        if id >= self.tokens.len() {
            return Err(MoveError::NotFound);
        }
        let label = self.tokens[id].label.clone();
        let updated = Token { id: self.tokens[id].id, label, x, y };
        let reply = updated.duplicate();
        let ghost before = self.tokens@;
        self.tokens.set(id, updated);
        proof {
            assert(self.tokens@ == before.update(id as int, updated));
            assert(tokens_view(self.tokens@) =~= moved(tokens_view(before), id as int, x, y));
            assert(dense(tokens_view(before)));
            assert forall|i: int| 0 <= i < self@.len() implies #[trigger] self@[i].id == i by {
                assert(tokens_view(before)[i].id == i);
            }
        }
        Ok(reply)
    }

    /// The current document, token by token.
    pub fn snapshot(&self) -> (r: Vec<Token>)
        ensures
            tokens_view(r@) == self@,
    {
        let mut out: Vec<Token> = Vec::new();
        let mut i: usize = 0;
        while i < self.tokens.len()
            invariant
                i <= self.tokens@.len(),
                tokens_view(out@) == tokens_view(self.tokens@).subrange(0, i as int),
            decreases self.tokens@.len() - i,
        {
            let ghost before = out@;
            out.push(self.tokens[i].duplicate());
            proof {
                assert(tokens_view(before).len() == before.len());
                assert forall|k: int| 0 <= k < i + 1 implies #[trigger] tokens_view(out@)[k]
                    == tokens_view(self.tokens@)[k] by {
                    if k < i {
                        assert(out@[k] == before[k]);
                        assert(tokens_view(before)[k] == tokens_view(self.tokens@).subrange(
                            0,
                            i as int,
                        )[k]);
                    }
                }
                assert(tokens_view(out@) =~= tokens_view(self.tokens@).subrange(0, i + 1));
            }
            i = i + 1;
        }
        assert(tokens_view(self.tokens@).subrange(0, i as int) =~= tokens_view(self.tokens@));
        out
    }
}

/// A replace is all or nothing: whatever the document held before, afterwards
/// it holds exactly the new tokens, so no reader meets tokens of the old
/// document beside tokens of the new one.
pub proof fn replace_keeps_nothing_of_before(
    before: Seq<TokenView>,
    other: Seq<TokenView>,
    fresh: Seq<TokenView>,
)
    ensures
        replaced(before, fresh) == fresh,
        replaced(before, fresh) == replaced(other, fresh),
{
}

/// An accepted move changes the position of its own token and nothing else:
/// the document keeps its length, the moved token keeps its id and label and
/// stands at the requested position, and every other token is untouched.
pub proof fn move_changes_only_its_token(doc: Seq<TokenView>, id: int, x: u32, y: u32)
    requires
        0 <= id < doc.len(),
    ensures
        moved(doc, id, x, y).len() == doc.len(),
        moved(doc, id, x, y)[id] == (TokenView { id: doc[id].id, label: doc[id].label, x, y }),
        forall|j: int| 0 <= j < doc.len() && j != id ==> #[trigger] moved(doc, id, x, y)[j] == doc[j],
{
}

/// Two accepted moves of different tokens both take effect, whichever comes
/// first: applying them in either order gives the same document, in which
/// each token stands where its own move put it.
pub proof fn moves_of_distinct_tokens_commute(
    doc: Seq<TokenView>,
    first: int,
    first_x: u32,
    first_y: u32,
    second: int,
    second_x: u32,
    second_y: u32,
)
    requires
        0 <= first < doc.len(),
        0 <= second < doc.len(),
        first != second,
    ensures
        moved(moved(doc, first, first_x, first_y), second, second_x, second_y) == moved(
            moved(doc, second, second_x, second_y),
            first,
            first_x,
            first_y,
        ),
        moved(moved(doc, first, first_x, first_y), second, second_x, second_y)[first].x == first_x,
        moved(moved(doc, first, first_x, first_y), second, second_x, second_y)[first].y == first_y,
        moved(moved(doc, first, first_x, first_y), second, second_x, second_y)[second].x
            == second_x,
        moved(moved(doc, first, first_x, first_y), second, second_x, second_y)[second].y
            == second_y,
{
    assert(moved(moved(doc, first, first_x, first_y), second, second_x, second_y) =~= moved(
        moved(doc, second, second_x, second_y),
        first,
        first_x,
        first_y,
    ));
}

} // verus!
