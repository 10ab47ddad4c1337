use vstd::prelude::*;
use crate::geometry::{step, Direction, Field, Point};
use crate::snake::{canonical_body, grown, runs_into, shifted, Snake, SnakeModel};
use crate::spawn::{field_full, free_cell, generate_apple};

verus! {

/// Time between two ticks, in milliseconds.
pub const TICK_RATE_MS: u64 = 128;

#[derive(Debug, Clone, Copy, PartialEq, Eq, Structural)]
pub enum AppStatus {
    Menu,
    Playing,
    GameOver,
}

/// A key press as the game reads it.
#[derive(Debug, Clone, Copy, PartialEq, Eq, Structural)]
pub enum Key {
    Esc,
    Enter,
    Up,
    Down,
    Left,
    Right,
    Char(char),
    Other,
}

/// The turn that a key asks for: the arrows, and W, A, S and D.
pub open spec fn key_direction_spec(key: Key) -> Option<Direction> {
    match key {
        Key::Up => Some(Direction::Up),
        Key::Down => Some(Direction::Down),
        Key::Left => Some(Direction::Left),
        Key::Right => Some(Direction::Right),
        Key::Char(c) => if c == 'w' {
            Some(Direction::Up)
        } else if c == 's' {
            Some(Direction::Down)
        } else if c == 'a' {
            Some(Direction::Left)
        } else if c == 'd' {
            Some(Direction::Right)
        } else {
            None
        },
        _ => None,
    }
}

/// The turn that a key asks for, if any.
#[verifier::when_used_as_spec(key_direction_spec)]
pub fn key_direction(key: Key) -> (r: Option<Direction>)
    ensures
        r == key_direction_spec(key),
{
    match key {
        Key::Up => Some(Direction::Up),
        Key::Down => Some(Direction::Down),
        Key::Left => Some(Direction::Left),
        Key::Right => Some(Direction::Right),
        Key::Char(c) => if c == 'w' {
            Some(Direction::Up)
        } else if c == 's' {
            Some(Direction::Down)
        } else if c == 'a' {
            Some(Direction::Left)
        } else if c == 'd' {
            Some(Direction::Right)
        } else {
            None
        },
        _ => None,
    }
}

/// How long to wait for input when `elapsed_ms` have passed since the last tick.
pub fn poll_timeout_ms(elapsed_ms: u64) -> (r: u64)
    ensures
        r == (if elapsed_ms >= TICK_RATE_MS {
            0
        } else {
            TICK_RATE_MS - elapsed_ms
        }),
{
    TICK_RATE_MS.saturating_sub(elapsed_ms)
}

#[derive(Debug, Clone, Copy, PartialEq, Eq, Structural)]
pub struct Apple {
    pub point: Point,
}

/// What the game is, as the contracts speak of it.
pub struct AppModel {
    pub status: AppStatus,
    pub exit: bool,
    pub snake: SnakeModel,
    pub field: Field,
    pub score: u64,
    pub apple: Apple,
}

/// After an apple was eaten: the new one lies on a free cell, or, where the
/// field holds none, the old one stays.
pub open spec fn apple_placed(field: Field, body: Seq<Point>, before: Apple, after: Apple) -> bool {
    free_cell(field, body, after.point) || (field_full(field, body) && after == before)
}

impl AppModel {
    /// The snake is well formed, the score never passes the body's length, and
    /// while a game runs the head lies on the screen.
    pub open spec fn wf(self) -> bool {
        &&& self.snake.wf()
        &&& self.score <= self.snake.body.len()
        &&& self.status == AppStatus::Playing ==> self.snake.body[0].on_screen()
    }

    /// Where the head goes on the next tick.
    pub open spec fn next_head(self) -> Point {
        step(self.snake.body[0], self.snake.next_direction)
    }

    /// The next tick moves the head onto the apple.
    pub open spec fn eats(self) -> bool {
        self.next_head() == self.apple.point
    }

    /// The next tick moves the head into a wall.
    pub open spec fn hits_wall(self) -> bool {
        !self.field.inside(self.next_head())
    }

    /// The next tick moves the head onto a segment still in its way.
    pub open spec fn hits_body(self) -> bool {
        runs_into(grown(self.snake.body, self.eats()), self.next_head())
    }

    /// `next` is what one tick of a running game makes of this state.
    pub open spec fn ticked(self, next: AppModel) -> bool {
        &&& next.snake.direction == self.snake.next_direction
        &&& next.snake.next_direction == self.snake.next_direction
        &&& next.snake.body == shifted(grown(self.snake.body, self.eats()), self.next_head())
        &&& next.score == self.score + if self.eats() {
            1int
        } else {
            0int
        }
        &&& next.status == if self.hits_wall() || self.hits_body() {
            AppStatus::GameOver
        } else {
            AppStatus::Playing
        }
        &&& next.exit == self.exit
        &&& next.field == self.field
        &&& if self.eats() {
            apple_placed(next.field, next.snake.body, self.apple, next.apple)
        } else {
            next.apple == self.apple
        }
    }

    /// `next` is a freshly started game on the same field.
    pub open spec fn started(self, next: AppModel) -> bool {
        &&& next.status == AppStatus::Playing
        &&& next.score == 0
        &&& next.snake.body == canonical_body()
        &&& next.snake.direction == Direction::Right
        &&& next.snake.next_direction == Direction::Right
        &&& next.exit == self.exit
        &&& next.field == self.field
        &&& apple_placed(next.field, next.snake.body, self.apple, next.apple)
    }
}

pub struct App {
    status: AppStatus,
    exit: bool,
    snake: Snake,
    field: Field,
    score: u64,
    apple: Apple,
}

impl View for App {
    type V = AppModel;

    closed spec fn view(&self) -> AppModel {
        AppModel {
            status: self.status,
            exit: self.exit,
            snake: self.snake@,
            field: self.field,
            score: self.score,
            apple: self.apple,
        }
    }
}

impl App {
    /// A game waiting in its menu, on a field of no size yet.
    pub fn new() -> (r: App)
        ensures
            r@.wf(),
            r@.status == AppStatus::Menu,
            !r@.exit,
            r@.score == 0,
            r@.snake.body == canonical_body(),
            r@.snake.direction == Direction::Right,
            r@.snake.next_direction == Direction::Right,
            r@.field == (Field { width: 0, height: 0 }),
            r@.apple == (Apple { point: Point { x: 0, y: 0 } }),
    {
        App {
            status: AppStatus::Menu,
            exit: false,
            snake: Snake::new(),
            field: Field { width: 0, height: 0 },
            score: 0,
            apple: Apple { point: Point { x: 0, y: 0 } },
        }
    }

    /// A game under way on `field` with the starting snake and the apple at `apple`.
    pub fn new_game(field: Field, apple: Point) -> (r: App)
        ensures
            r@.wf(),
            r@.status == AppStatus::Playing,
            !r@.exit,
            r@.score == 0,
            r@.snake.body == canonical_body(),
            r@.snake.direction == Direction::Right,
            r@.snake.next_direction == Direction::Right,
            r@.field == field,
            r@.apple == (Apple { point: apple }),
    {
        App {
            status: AppStatus::Playing,
            exit: false,
            snake: Snake::new(),
            field,
            score: 0,
            apple: Apple { point: apple },
        }
    }

    pub fn status(&self) -> (r: AppStatus)
        ensures
            r == self@.status,
    {
        self.status
    }

    pub fn score(&self) -> (r: u64)
        ensures
            r == self@.score,
    {
        self.score
    }

    pub fn apple(&self) -> (r: Apple)
        ensures
            r == self@.apple,
    {
        self.apple
    }

    pub fn snake(&self) -> (r: &Snake)
        ensures
            r@ == self@.snake,
    {
        &self.snake
    }

    pub fn field(&self) -> (r: Field)
        ensures
            r == self@.field,
    {
        self.field
    }

    /// Whether the player has asked to quit.
    pub fn should_exit(&self) -> (r: bool)
        ensures
            r == self@.exit,
    {
        self.exit
    }

    /// Takes the field size that the terminal reports. Segments and apple
    /// stay where they are: a smaller field tells only on the next move.
    pub fn resize(&mut self, width: u16, height: u16)
        requires
            old(self)@.wf(),
        ensures
            final(self)@ == (AppModel { field: Field { width, height }, ..old(self)@ }),
            final(self)@.wf(),
    {
        self.field = Field { width, height };
    }

    /// Whether a tick is owed once `elapsed_ms` have passed since the last one.
    pub fn tick_due(&self, elapsed_ms: u64) -> (r: bool)
        ensures
            r == (self@.status == AppStatus::Playing && elapsed_ms >= TICK_RATE_MS),
    {
        self.status == AppStatus::Playing && elapsed_ms >= TICK_RATE_MS
    }

    fn exit(&mut self)
        ensures
            final(self)@ == (AppModel { exit: true, ..old(self)@ }),
    {
        self.exit = true;
    }

    /// Starts a game: the starting snake, a score of zero and a new apple.
    fn start_game(&mut self)
        requires
            old(self)@.wf(),
        ensures
            final(self)@.wf(),
            old(self)@.started(final(self)@),
    {
        self.snake = Snake::new();
        self.score = 0;
        if let Some(p) = generate_apple(self.field, self.snake.body()) {
            self.apple = Apple { point: p };
        }
        self.status = AppStatus::Playing;
    }

    /// Acts on one key press.
    pub fn handle_key_event(&mut self, key: Key)
        requires
            old(self)@.wf(),
        ensures
            final(self)@.wf(),
            key == Key::Esc ==> final(self)@ == (AppModel { exit: true, ..old(self)@ }),
            key == Key::Char(' ') && old(self)@.status != AppStatus::Playing ==> old(
                self,
            )@.started(final(self)@),
            key == Key::Char(' ') && old(self)@.status == AppStatus::Playing ==> final(self)@ == old(
                self,
            )@,
            key == Key::Enter ==> final(self)@ == if old(self)@.status == AppStatus::GameOver {
                AppModel { status: AppStatus::Menu, ..old(self)@ }
            } else {
                old(self)@
            },
            key_direction(key) matches Some(d) ==> final(self)@ == if old(self)@.status
                == AppStatus::Playing {
                AppModel { snake: old(self)@.snake.after_request(d), ..old(self)@ }
            } else {
                old(self)@
            },
            key != Key::Esc && key != Key::Enter && key != Key::Char(' ') && key_direction(key)
                is None ==> final(self)@ == old(self)@,
    {
        match key {
            Key::Esc => self.exit(),
            Key::Enter => {
                if self.status == AppStatus::GameOver {
                    self.status = AppStatus::Menu;
                }
            },
            Key::Char(' ') => {
                if self.status != AppStatus::Playing {
                    self.start_game();
                }
            },
            _ => {
                if let Some(d) = key_direction(key) {
                    if self.status == AppStatus::Playing {
                        self.snake.request_direction(d);
                    }
                }
            },
        }
    }

    /// One step of a running game; nothing happens in the menu or after a
    /// collision. The pending turn is applied, the head moves one step, an
    /// apple in its way makes the snake one segment longer and the score one
    /// higher, and a wall or a segment still in the way ends the game. A new
    /// apple is placed once the body has moved, so that it never lies under
    /// any segment, the new head included.
    pub fn tick(&mut self)
        requires
            old(self)@.wf(),
        ensures
            final(self)@.wf(),
            old(self)@.status != AppStatus::Playing ==> final(self)@ == old(self)@,
            old(self)@.status == AppStatus::Playing ==> old(self)@.ticked(final(self)@),
    {
        if self.status == AppStatus::Playing {
            self.snake.commit_direction();
            let head = self.snake.head().stepped(self.snake.direction());
            let eats = head == self.apple.point;
            let hit = self.snake.advance(head, eats);
            if eats {
                // the body's length fits a usize, and the score stays below it
                let _ = self.snake.body().len();
                self.score = self.score + 1;
            }
            if hit || !self.field.inside(head) {
                self.status = AppStatus::GameOver;
            }
            if eats {
                if let Some(p) = generate_apple(self.field, self.snake.body()) {
                    self.apple = Apple { point: p };
                }
            }
        }
    }
}

/// A tick keeps the snake's length and the score, unless the head moves onto
/// the apple: then both grow by one.
pub proof fn lemma_tick_grows_only_on_apple(s: AppModel, n: AppModel)
    requires
        s.wf(),
        s.status == AppStatus::Playing,
        s.ticked(n),
    ensures
        !s.eats() ==> n.snake.body.len() == s.snake.body.len() && n.score == s.score,
        s.eats() ==> n.snake.body.len() == s.snake.body.len() + 1 && n.score == s.score + 1,
{
}

/// A tick whose new head lies beyond a wall ends the game.
pub proof fn lemma_wall_ends_game(s: AppModel, n: AppModel)
    requires
        s.wf(),
        s.status == AppStatus::Playing,
        s.ticked(n),
        s.next_head().x < 0 || s.next_head().x > s.field.max_x() || s.next_head().y < 0
            || s.next_head().y > s.field.max_y(),
    ensures
        n.status == AppStatus::GameOver,
{
}

/// A tick whose new head lands on a segment of the pre-shift body that is
/// still in its way (any but the last) ends the game.
pub proof fn lemma_body_hit_ends_game(s: AppModel, n: AppModel, k: int)
    requires
        s.wf(),
        s.status == AppStatus::Playing,
        s.ticked(n),
        0 <= k < grown(s.snake.body, s.eats()).len() - 1,
        grown(s.snake.body, s.eats())[k] == s.next_head(),
    ensures
        n.status == AppStatus::GameOver,
{
}

} // verus!
